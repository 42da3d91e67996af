//! The first protocol of the server: packets whose kind is a word (`ping`,
//! `init`, `map`, `dir`) and whose data is JSON text.
use vstd::prelude::*;

use crate::text::{chars_of, copy_string};

verus! {

/// A packet of the first protocol: a word naming its kind, and its data.
#[derive(Debug, Clone, PartialEq, Eq)]
pub struct Packet {
    pub packet_type: String,
    pub packet_data: String,
}

impl Packet {
    /// A packet of kind `packet_type` with `packet_data`.
    pub fn new(packet_type: String, packet_data: String) -> (packet: Packet)
        ensures
            packet.packet_type@ == packet_type@,
            packet.packet_data@ == packet_data@,
    {
        Packet { packet_type, packet_data }
    }

    /// A packet of kind `packet_type` with `packet_data`, from borrowed text.
    pub fn new_from_str(packet_type: &str, packet_data: &str) -> (packet: Packet)
        ensures
            packet.packet_type@ == packet_type@,
            packet.packet_data@ == packet_data@,
    {
        Packet { packet_type: packet_type.to_string(), packet_data: packet_data.to_string() }
    }
}

/// What a packet of the first protocol asks for.
pub enum Request {
    /// `ping`.
    Ping,
    /// `init`: join the game under the name that the data holds.
    Join { name: String },
    /// `map`: all players.
    MapData,
    /// `dir`: set the sender's direction to the JSON vector that the data holds.
    Direction { data: String },
    /// Any other word: no answer.
    Ignored,
}

/// A request as a value.
pub enum RequestView {
    Ping,
    Join { name: Seq<char> },
    MapData,
    Direction { data: Seq<char> },
    Ignored,
}

impl View for Request {
    type V = RequestView;

    open spec fn view(&self) -> RequestView {
        match self {
            Request::Ping => RequestView::Ping,
            Request::Join { name } => RequestView::Join { name: name@ },
            Request::MapData => RequestView::MapData,
            Request::Direction { data } => RequestView::Direction { data: data@ },
            Request::Ignored => RequestView::Ignored,
        }
    }
}

/// What a packet of kind `kind` with `data` asks for.
pub open spec fn request_of(kind: Seq<char>, data: Seq<char>) -> RequestView {
    if kind == "ping"@ {
        RequestView::Ping
    } else if kind == "init"@ {
        RequestView::Join { name: data }
    } else if kind == "map"@ {
        RequestView::MapData
    } else if kind == "dir"@ {
        RequestView::Direction { data }
    } else {
        RequestView::Ignored
    }
}

/// Whether two texts are the same.
pub fn same_text(a: &str, b: &str) -> (r: bool)
    ensures
        r == (a@ == b@),
{
    let x = chars_of(a);
    let y = chars_of(b);
    if x.len() != y.len() {
        return false;
    }
    let mut i: usize = 0;
    while i < x.len()
        invariant
            x.len() == y.len(),
            x@ == a@,
            y@ == b@,
            i <= x.len(),
            forall|j: int| 0 <= j < i ==> x@[j] == y@[j],
        decreases x.len() - i,
    {
        if x[i] != y[i] {
            assert(a@[i as int] != b@[i as int]);
            return false;
        }
        i = i + 1;
    }
    assert(x@ =~= y@);
    true
}

/// What `packet` asks for.
pub fn route(packet: &Packet) -> (request: Request)
    ensures
        request@ == request_of(packet.packet_type@, packet.packet_data@),
        packet.packet_type@ == "init"@ ==> request@ == (RequestView::Join { name: packet.packet_data@ }),
{
    proof {
        lemma_init_joins_with_data(packet.packet_data@);
    }
    let kind = packet.packet_type.as_str();
    if same_text(kind, "ping") {
        Request::Ping
    } else if same_text(kind, "init") {
        Request::Join { name: copy_string(&packet.packet_data) }
    } else if same_text(kind, "map") {
        Request::MapData
    } else if same_text(kind, "dir") {
        Request::Direction { data: copy_string(&packet.packet_data) }
    } else {
        Request::Ignored
    }
}

/// What the server did for a request of the first protocol.
pub enum Outcome {
    /// Answered a ping.
    Pong,
    /// The sender joined; `player` is its record, as JSON.
    Joined { player: String },
    /// The records of all players, as JSON.
    MapData { players: String },
    /// Set the sender's direction.
    DirectionSet,
}

/// The packet that answers an outcome: `pong`/`pong`, `init` with the player,
/// `map` with the players, `dir`/`dir`.
pub fn reply(outcome: Outcome) -> (answer: Packet)
    ensures
        match outcome {
            Outcome::Pong => answer.packet_type@ == "pong"@ && answer.packet_data@ == "pong"@,
            Outcome::Joined { player } => answer.packet_type@ == "init"@ && answer.packet_data@
                == player@,
            Outcome::MapData { players } => answer.packet_type@ == "map"@ && answer.packet_data@
                == players@,
            Outcome::DirectionSet => answer.packet_type@ == "dir"@ && answer.packet_data@ == "dir"@,
        },
{
    match outcome {
        Outcome::Pong => Packet::new_from_str("pong", "pong"),
        Outcome::Joined { player } => Packet::new("init".to_string(), player),
        Outcome::MapData { players } => Packet::new("map".to_string(), players),
        Outcome::DirectionSet => Packet::new_from_str("dir", "dir"),
    }
}

/// Joining the first server (`init`) asks to join under the packet's whole data,
/// whatever it holds.
pub proof fn lemma_init_joins_with_data(data: Seq<char>)
    ensures
        request_of("init"@, data) == (RequestView::Join { name: data }),
{
    reveal_strlit("init");
    reveal_strlit("ping");
    assert("init"@[0] != "ping"@[0]);
}

/// The other words of the first protocol: `ping` and `map` ask for the same thing
/// whatever the data, `dir` hands on the whole data, and any other word is
/// ignored.
pub proof fn lemma_routes_by_word(kind: Seq<char>, data: Seq<char>)
    ensures
        request_of("ping"@, data) == RequestView::Ping,
        request_of("map"@, data) == RequestView::MapData,
        request_of("dir"@, data) == (RequestView::Direction { data }),
        kind != "ping"@ && kind != "init"@ && kind != "map"@ && kind != "dir"@ ==> request_of(kind, data)
            == RequestView::Ignored,
{
    reveal_strlit("init");
    reveal_strlit("ping");
    reveal_strlit("map");
    reveal_strlit("dir");
    assert("map"@.len() != "ping"@.len());
    assert("map"@.len() != "init"@.len());
    assert("dir"@.len() != "ping"@.len());
    assert("dir"@.len() != "init"@.len());
    assert("dir"@[0] != "map"@[0]);
}

} // verus!
