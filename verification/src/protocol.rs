//! What the server does with a text packet: which request it carries, and the
//! packet that answers it.
use vstd::prelude::*;

use crate::text::{
    chars_of, join_text, split_chars, split_on, split_text, string_of, strings_view, join_with,
    lemma_split_join, no_piece_holds, lemma_split_shape, lemma_split_append, lemma_split_single,
};
use crate::wire::{Packet, PacketView};

verus! {

/// A request that a text packet carries.
pub enum Request {
    /// Kind 0: a ping.
    Ping,
    /// Kind 1, sub-kind 0: make a player named by the payload's first field.
    CreatePlayer { username: String },
    /// Kind 2, sub-kind 0: the list of all players.
    ListPlayers,
    /// Kind 3, sub-kind 0, payload `id;dir_x,dir_y;rotation`: a player's movement input,
    /// its numbers still as text.
    MovementInput { player_id: String, dir_x: String, dir_y: String, rotation: String },
    /// Anything else: the server does not answer.
    Ignored,
}

/// A request as a value.
pub enum RequestView {
    Ping,
    CreatePlayer { username: Seq<char> },
    ListPlayers,
    MovementInput { player_id: Seq<char>, dir_x: Seq<char>, dir_y: Seq<char>, rotation: Seq<char> },
    Ignored,
}

impl View for Request {
    type V = RequestView;

    open spec fn view(&self) -> RequestView {
        match self {
            Request::Ping => RequestView::Ping,
            Request::CreatePlayer { username } => RequestView::CreatePlayer { username: username@ },
            Request::ListPlayers => RequestView::ListPlayers,
            Request::MovementInput { player_id, dir_x, dir_y, rotation } => RequestView::MovementInput {
                player_id: player_id@,
                dir_x: dir_x@,
                dir_y: dir_y@,
                rotation: rotation@,
            },
            Request::Ignored => RequestView::Ignored,
        }
    }
}

/// Whether the server handles the packet without stopping: login (1/1) and
/// logout (1/2) are not implemented, and a movement input needs three fields,
/// the second with two comma-separated parts.
pub open spec fn request_supported(p: PacketView) -> bool {
    &&& !(p.packet_type == 1 && (p.packet_subtype == 1 || p.packet_subtype == 2))
    &&& (p.packet_type == 3 && p.packet_subtype == 0) ==> {
        let fields = split_on(p.payload, ';');
        fields.len() >= 3 && split_on(fields[1], ',').len() >= 2
    }
}

/// The request that a packet carries.
pub open spec fn request_of(p: PacketView) -> RequestView {
    let fields = split_on(p.payload, ';');
    if p.packet_type == 0 {
        RequestView::Ping
    } else if p.packet_type == 1 && p.packet_subtype == 0 {
        RequestView::CreatePlayer { username: fields[0] }
    } else if p.packet_type == 2 && p.packet_subtype == 0 {
        RequestView::ListPlayers
    } else if p.packet_type == 3 && p.packet_subtype == 0 {
        let dirs = split_on(fields[1], ',');
        RequestView::MovementInput {
            player_id: fields[0],
            dir_x: dirs[0],
            dir_y: dirs[1],
            rotation: fields[2],
        }
    } else {
        RequestView::Ignored
    }
}

/// Whether the server handles `packet` (see `request_supported`).
pub fn is_supported(packet: &Packet) -> (r: bool)
    ensures
        r == request_supported(packet@),
{
    if packet.packet_type == 1 && (packet.packet_subtype == 1 || packet.packet_subtype == 2) {
        return false;
    }
    if packet.packet_type == 3 && packet.packet_subtype == 0 {
        let fields = split_chars(&chars_of(packet.payload.as_str()), ';');
        if fields.len() < 3 {
            return false;
        }
        let dirs = split_chars(&fields[1], ',');
        return dirs.len() >= 2;
    }
    true
}

/// Why the server stops on a packet, if it does.
#[derive(Debug, Clone, Copy, PartialEq, Eq)]
pub enum Support {
    /// The server handles the packet.
    Supported,
    /// A login (1/1): not implemented.
    Login,
    /// A logout (1/2): not implemented.
    Logout,
    /// A movement input (3/0) that lacks a field.
    MalformedInput,
}

/// Why the server stops on `packet`, if it does.
pub fn support(packet: &Packet) -> (r: Support)
    ensures
        (r == Support::Supported) == request_supported(packet@),
        r == Support::Login <==> (packet.packet_type == 1 && packet.packet_subtype == 1),
        r == Support::Logout <==> (packet.packet_type == 1 && packet.packet_subtype == 2),
        r == Support::MalformedInput <==> (packet.packet_type == 3 && packet.packet_subtype == 0
            && !request_supported(packet@)),
{
    if packet.packet_type == 1 && packet.packet_subtype == 1 {
        Support::Login
    } else if packet.packet_type == 1 && packet.packet_subtype == 2 {
        Support::Logout
    } else if is_supported(packet) {
        Support::Supported
    } else {
        Support::MalformedInput
    }
}

/// The request that `packet` carries.
pub fn parse_request(packet: &Packet) -> (request: Request)
    requires
        request_supported(packet@),
    ensures
        request@ == request_of(packet@),
        packet.packet_type == 1 && packet.packet_subtype == 0 ==> request@ == (RequestView::CreatePlayer {
            username: split_on(packet.payload@, ';')[0],
        }),
        packet.packet_type == 3 && packet.packet_subtype == 0 ==> request@ == (RequestView::MovementInput {
            player_id: split_on(packet.payload@, ';')[0],
            dir_x: split_on(split_on(packet.payload@, ';')[1], ',')[0],
            dir_y: split_on(split_on(packet.payload@, ';')[1], ',')[1],
            rotation: split_on(packet.payload@, ';')[2],
        }),
{
    proof {
        lemma_split_shape(packet.payload@, ';');
    }
    if packet.packet_type == 0 {
        Request::Ping
    } else if packet.packet_type == 1 && packet.packet_subtype == 0 {
        let fields = split_text(packet.payload.as_str(), ';');
        let username = crate::text::copy_string(&fields[0]);
        Request::CreatePlayer { username }
    } else if packet.packet_type == 2 && packet.packet_subtype == 0 {
        Request::ListPlayers
    } else if packet.packet_type == 3 && packet.packet_subtype == 0 {
        let fields = split_chars(&chars_of(packet.payload.as_str()), ';');
        let dirs = split_chars(&fields[1], ',');
        Request::MovementInput {
            player_id: string_of(&fields[0]),
            dir_x: string_of(&dirs[0]),
            dir_y: string_of(&dirs[1]),
            rotation: string_of(&fields[2]),
        }
    } else {
        Request::Ignored
    }
}

/// What the server did for a request.
pub enum Outcome {
    /// Answered a ping.
    Pong,
    /// Made a player; `player` is its record.
    PlayerCreated { player: String },
    /// Read the records of all players.
    PlayerList { players: Vec<String> },
    /// Recorded a movement input.
    InputApplied,
}

/// An outcome as a value.
pub enum OutcomeView {
    Pong,
    PlayerCreated { player: Seq<char> },
    PlayerList { players: Seq<Seq<char>> },
    InputApplied,
}

impl View for Outcome {
    type V = OutcomeView;

    open spec fn view(&self) -> OutcomeView {
        match self {
            Outcome::Pong => OutcomeView::Pong,
            Outcome::PlayerCreated { player } => OutcomeView::PlayerCreated { player: player@ },
            Outcome::PlayerList { players } => OutcomeView::PlayerList {
                players: strings_view(players@),
            },
            Outcome::InputApplied => OutcomeView::InputApplied,
        }
    }
}

/// The records of several players in one payload, separated by `+`.
pub open spec fn player_list(players: Seq<Seq<char>>) -> Seq<char> {
    join_with(players, '+')
}

/// The packet that answers `request` after `outcome`; `ack` is the payload of a
/// bare acknowledgement. A ping or a new player is answered with the request's
/// own kinds; the list with kinds 2/0; an input with kinds 3/0.
pub open spec fn reply_of(request: PacketView, outcome: OutcomeView, ack: Seq<char>) -> PacketView {
    match outcome {
        OutcomeView::Pong => PacketView {
            packet_type: request.packet_type,
            packet_subtype: request.packet_subtype,
            payload: ack,
        },
        OutcomeView::PlayerCreated { player } => PacketView {
            packet_type: request.packet_type,
            packet_subtype: request.packet_subtype,
            payload: player,
        },
        OutcomeView::PlayerList { players } => PacketView {
            packet_type: 2,
            packet_subtype: 0,
            payload: player_list(players),
        },
        OutcomeView::InputApplied => PacketView { packet_type: 3, packet_subtype: 0, payload: ack },
    }
}

/// The records of several players in one payload, separated by `+`.
pub fn player_vec_to_string(players: &Vec<String>) -> (text: String)
    ensures
        text@ == player_list(strings_view(players@)),
{
    join_text(players, '+')
}

/// The packet that answers `request` after `outcome` (see `reply_of`).
pub fn reply(request: &Packet, outcome: Outcome, ack: &str) -> (answer: Packet)
    ensures
        answer@ == reply_of(request@, outcome@, ack@),
        outcome matches Outcome::PlayerList { players } ==> answer@ == (PacketView {
            packet_type: 2,
            packet_subtype: 0,
            payload: join_with(strings_view(players@), '+'),
        }),
{
    match outcome {
        Outcome::Pong => Packet::new(request.packet_type, request.packet_subtype, ack.to_string()),
        Outcome::PlayerCreated { player } => Packet::new(
            request.packet_type,
            request.packet_subtype,
            player,
        ),
        Outcome::PlayerList { players } => Packet::new(2, 0, player_vec_to_string(&players)),
        Outcome::InputApplied => Packet::new(3, 0, ack.to_string()),
    }
}

/// A list of player records, none holding `+`, splits back into the records.
pub proof fn lemma_player_list_splits(players: Seq<Seq<char>>)
    requires
        players.len() >= 1,
        no_piece_holds(players, '+'),
    ensures
        split_on(player_list(players), '+') == players,
{
    lemma_split_join(players, '+');
}

/// Text made of two parts without `c`, with another character between them,
/// holds no `c`.
proof fn lemma_no_sep_in_pair(a: Seq<char>, x: char, b: Seq<char>, c: char)
    requires
        !a.contains(c),
        !b.contains(c),
        x != c,
    ensures
        !(a.push(x) + b).contains(c),
{
    let t = a.push(x) + b;
    if t.contains(c) {
        let k = choose|k: int| 0 <= k < t.len() && t[k] == c;
        if k < a.len() {
            assert(a[k] == c);
        } else if k > a.len() {
            assert(b[k - a.len() - 1] == c);
        }
    }
}

/// A create-player packet (1/0) names the player by the payload's first
/// `;`-separated field: a payload without `;` is the name itself, and a name
/// followed by `;` and anything else is that name.
pub proof fn lemma_create_player_username(name: Seq<char>, rest: Seq<char>)
    requires
        !name.contains(';'),
    ensures
        request_supported(PacketView { packet_type: 1, packet_subtype: 0, payload: name }),
        request_of(PacketView { packet_type: 1, packet_subtype: 0, payload: name })
            == (RequestView::CreatePlayer { username: name }),
        request_of(PacketView { packet_type: 1, packet_subtype: 0, payload: name.push(';') + rest })
            == (RequestView::CreatePlayer { username: name }),
{
    lemma_split_single(name, ';');
    lemma_split_append(name, ';', rest);
    lemma_split_shape(rest, ';');
}

/// A movement input (3/0) with payload `id;dir_x,dir_y;rotation` is supported and
/// carries exactly those four parts, whatever further `;`-separated fields follow
/// (`more` holds them, after a `;`, when `extra` is set).
pub proof fn lemma_movement_input_fields(
    id: Seq<char>,
    dir_x: Seq<char>,
    dir_y: Seq<char>,
    rotation: Seq<char>,
    extra: bool,
    more: Seq<char>,
)
    requires
        !id.contains(';'),
        !dir_x.contains(';'),
        !dir_y.contains(';'),
        !rotation.contains(';'),
        !dir_x.contains(','),
        !dir_y.contains(','),
    ensures
        ({
            let base = ((id.push(';') + dir_x.push(',') + dir_y).push(';') + rotation);
            let payload = if extra { base.push(';') + more } else { base };
            let p = PacketView { packet_type: 3, packet_subtype: 0, payload };
            &&& request_supported(p)
            &&& request_of(p) == (RequestView::MovementInput {
                player_id: id,
                dir_x,
                dir_y,
                rotation,
            })
        }),
{
    let dirs = dir_x.push(',') + dir_y;
    let head = id.push(';') + dirs;
    let base = head.push(';') + rotation;
    assert(id.push(';') + dir_x.push(',') + dir_y =~= head);
    lemma_no_sep_in_pair(dir_x, ',', dir_y, ';');
    lemma_split_single(id, ';');
    lemma_split_single(dirs, ';');
    lemma_split_single(rotation, ';');
    lemma_split_append(id, ';', dirs);
    lemma_split_append(head, ';', rotation);
    let fields = split_on(base, ';');
    assert(fields =~= seq![id, dirs, rotation]);
    lemma_split_single(dir_y, ',');
    lemma_split_single(dir_x, ',');
    lemma_split_append(dir_x, ',', dir_y);
    let ds = split_on(dirs, ',');
    assert(ds =~= seq![dir_x, dir_y]);
    if extra {
        lemma_split_append(base, ';', more);
        lemma_split_shape(more, ';');
        let all = split_on(base.push(';') + more, ';');
        assert(all[0] == id && all[1] == dirs && all[2] == rotation);
    }
}

/// The answer to a list of players is kind 2/0 and its payload splits on `+`
/// back into every player's record, in order (records hold no `+`); an empty
/// list gives an empty payload.
pub proof fn lemma_player_list_reply(request: PacketView, players: Seq<Seq<char>>, ack: Seq<char>)
    requires
        no_piece_holds(players, '+'),
    ensures
        reply_of(request, OutcomeView::PlayerList { players }, ack).packet_type == 2,
        reply_of(request, OutcomeView::PlayerList { players }, ack).packet_subtype == 0,
        players.len() >= 1 ==> split_on(
            reply_of(request, OutcomeView::PlayerList { players }, ack).payload,
            '+',
        ) == players,
        players.len() == 0 ==> reply_of(request, OutcomeView::PlayerList { players }, ack).payload.len() == 0,
{
    if players.len() >= 1 {
        lemma_split_join(players, '+');
    }
}

/// Kind 0 is a ping whatever its sub-kind and payload, 2/0 asks for the list of
/// players whatever its payload, and any kind other than 0 to 3 is ignored.
pub proof fn lemma_request_kinds(p: PacketView)
    ensures
        p.packet_type == 0 ==> request_of(p) == RequestView::Ping,
        p.packet_type == 2 && p.packet_subtype == 0 ==> request_of(p) == RequestView::ListPlayers,
        (p.packet_type < 0 || p.packet_type > 3) ==> request_of(p) == RequestView::Ignored,
        (p.packet_type < 0 || p.packet_type > 3) ==> request_supported(p),
{
}

/// A ping and a new player are answered under the request's own kinds, with the
/// acknowledgement and with the player's record; a movement input with kinds 3/0
/// and the acknowledgement.
pub proof fn lemma_reply_kinds(request: PacketView, player: Seq<char>, ack: Seq<char>)
    ensures
        reply_of(request, OutcomeView::Pong, ack) == (PacketView {
            packet_type: request.packet_type,
            packet_subtype: request.packet_subtype,
            payload: ack,
        }),
        reply_of(request, OutcomeView::PlayerCreated { player }, ack) == (PacketView {
            packet_type: request.packet_type,
            packet_subtype: request.packet_subtype,
            payload: player,
        }),
        reply_of(request, OutcomeView::InputApplied, ack) == (PacketView {
            packet_type: 3,
            packet_subtype: 0,
            payload: ack,
        }),
{
}

} // verus!
