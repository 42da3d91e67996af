//! The server's side of a client session: what it does with each packet, how it
//! answers finished commands, and which player each peer has.
use vstd::prelude::*;

use crate::codec::{i16_le_bytes, encode_i16};
use crate::net;
use crate::sessions::{opt_view, SessionInfo, SessionTable};
use crate::text::copy_string;
use crate::wire;

verus! {

/// What a session does with a packet from its client.
pub enum ClientPacketAction {
    /// Send this packet back.
    Reply(net::Packet),
    /// Ask the game for a character, quoting the packet's id and payload.
    CreateCharacter { packet_id: String, payload: Option<Vec<u8>> },
    /// Nothing.
    Ignore,
}

/// What a session does with a packet from its client: a ping (0/0) is answered
/// with an empty packet of the same id and kinds; a create-character request
/// (2/1) goes to the game; anything else is left alone.
pub fn handle_client_packet(packet: &net::Packet) -> (action: ClientPacketAction)
    ensures
        match action {
            ClientPacketAction::Reply(answer) => {
                &&& packet.packet_type == 0 && packet.packet_subtype == 0
                &&& answer@ == (net::PacketView {
                    id: packet.id@,
                    packet_type: 0,
                    packet_subtype: 0,
                    payload: None,
                })
            },
            ClientPacketAction::CreateCharacter { packet_id, payload } => {
                &&& packet.packet_type == 2 && packet.packet_subtype == 1
                &&& packet_id@ == packet.id@
                &&& net::payload_view(payload) == net::payload_view(packet.payload)
            },
            ClientPacketAction::Ignore => !(packet.packet_type == 0 && packet.packet_subtype == 0)
                && !(packet.packet_type == 2 && packet.packet_subtype == 1),
        },
{
    if packet.packet_type == 0 && packet.packet_subtype == 0 {
        ClientPacketAction::Reply(net::Packet::new(copy_string(&packet.id), 0, 0, None))
    } else if packet.packet_type == 2 && packet.packet_subtype == 1 {
        let payload = match &packet.payload {
            Some(bytes) => Some(bytes.clone()),
            None => None,
        };
        ClientPacketAction::CreateCharacter { packet_id: copy_string(&packet.id), payload }
    } else {
        ClientPacketAction::Ignore
    }
}

/// Where a command that a session waits on stands.
pub enum PendingStatus {
    /// The game answered.
    Ready(Result<Option<Vec<u8>>, i16>),
    /// No answer yet.
    Waiting,
    /// The game dropped the command.
    Closed,
}

/// What a session does with a command it waits on: keep waiting or not, and the
/// packet to send its client.
pub struct PendingStep {
    pub keep: bool,
    pub reply: Option<net::Packet>,
}

/// A finished command is answered to the client under the request's id with kind
/// 2: sub-kind 0 when it succeeded, sub-kind -1 and the encoded error code when it
/// failed; an unfinished one is kept; a dropped one is forgotten silently.
pub fn pending_step(id: &String, status: PendingStatus) -> (step: PendingStep)
    ensures
        match status {
            PendingStatus::Ready(Ok(_)) => {
                &&& !step.keep
                &&& step.reply matches Some(p)
                &&& p@ == (net::PacketView { id: id@, packet_type: 2, packet_subtype: 0, payload: None })
            },
            PendingStatus::Ready(Err(code)) => {
                &&& !step.keep
                &&& step.reply matches Some(p)
                &&& p@ == (net::PacketView {
                    id: id@,
                    packet_type: 2,
                    packet_subtype: -1i16,
                    payload: Some(i16_le_bytes(code)),
                })
            },
            PendingStatus::Waiting => step.keep && step.reply is None,
            PendingStatus::Closed => !step.keep && step.reply is None,
        },
{
    match status {
        PendingStatus::Ready(Ok(_)) => PendingStep {
            keep: false,
            reply: Some(net::Packet::new(copy_string(id), 2, 0, None)),
        },
        PendingStatus::Ready(Err(code)) => PendingStep {
            keep: false,
            reply: Some(net::Packet::new(copy_string(id), 2, -1, Some(encode_i16(code)))),
        },
        PendingStatus::Waiting => PendingStep { keep: true, reply: None },
        PendingStatus::Closed => PendingStep { keep: false, reply: None },
    }
}

/// A packet that answers `request` with the request's own kinds and `payload`.
pub fn echo_reply(request: &wire::Packet, payload: String) -> (answer: wire::Packet)
    ensures
        answer@ == (wire::PacketView {
            packet_type: request.packet_type,
            packet_subtype: request.packet_subtype,
            payload: payload@,
        }),
{
    wire::Packet::new(request.packet_type, request.packet_subtype, payload)
}

/// The answer to a command that went through the game: `y` when the game carried
/// it out, `n` when not, under the request's kinds.
pub fn engine_reply(request: &wire::Packet, succeeded: bool) -> (answer: wire::Packet)
    ensures
        answer@ == (wire::PacketView {
            packet_type: request.packet_type,
            packet_subtype: request.packet_subtype,
            payload: if succeeded {
                "y"@
            } else {
                "n"@
            },
        }),
{
    let payload = if succeeded {
        "y".to_string()
    } else {
        "n".to_string()
    };
    echo_reply(request, payload)
}

/// The answer to a login: kinds 1/0 and the player's record.
pub fn login_reply(player: String) -> (answer: wire::Packet)
    ensures
        answer@ == (wire::PacketView { packet_type: 1, packet_subtype: 0, payload: player@ }),
{
    wire::Packet::new(1, 0, player)
}

/// What the server does on a login, given the player its session is logged in as
/// and the record the store holds for that player.
pub enum LoginDecision {
    /// Answer with the player's stored record; nothing else changes.
    ReplyStored(String),
    /// The session's player is gone from the store: forget it, then create a player.
    ClearThenCreate,
    /// The session has no player: create one.
    Create,
}

/// How a login goes: a session logged in as a player whose record is still stored
/// gets that record back; one whose player is gone is cleared and gets a new
/// player; one with no player gets a new player. `stored` is what the store holds
/// for the session's player, and is not looked at when the session has none.
pub fn login_decision(session_player: &Option<String>, stored: Option<String>) -> (d: LoginDecision)
    ensures
        match d {
            LoginDecision::ReplyStored(record) => session_player is Some && opt_view(stored)
                == Some(record@),
            LoginDecision::ClearThenCreate => session_player is Some && stored is None,
            LoginDecision::Create => session_player is None,
        },
{
    match session_player {
        Some(_) => match stored {
            Some(record) => LoginDecision::ReplyStored(record),
            None => LoginDecision::ClearThenCreate,
        },
        None => LoginDecision::Create,
    }
}

/// Ends a login that made a player: `peer`'s session is logged in as `player_id`
/// and marked active at `now`, and the answer carries the player's record.
pub fn finish_login(table: &mut SessionTable, peer: &String, player_id: String, record: String, now: u64) -> (answer: wire::Packet)
    requires
        old(table).wf(),
        old(table).view_map().contains_key(peer@),
    ensures
        final(table).wf(),
        final(table).view_map() == old(table).view_map().insert(
            peer@,
            SessionInfo { player_id: Some(player_id@), last_active: now },
        ),
        answer@ == (wire::PacketView { packet_type: 1, packet_subtype: 0, payload: record@ }),
{
    let _session = table.set_session_player_id(peer, Some(player_id), now);
    login_reply(record)
}

} // verus!
