//! The packet that the server and its clients exchange in binary form: a
//! request id chosen by the client, a kind, a sub-kind and optional bytes.
//!
//! Kinds: 0 network (0 ping, 1 heartbeat); 1 auth (0 init session, 1 kill
//! session, 2 login, 3 logout); 2 action (-1 command failed, 0 command done,
//! 1 create character, 2 set bearing); 3 state (-1 set network state, 0 self
//! full, 1 self diff, 2 players full, 3 players diff, 4 entities full,
//! 5 entities diff).
use vstd::prelude::*;

use crate::text::copy_string;

verus! {

/// A binary packet; `id` is empty when the packet answers no request.
#[derive(Debug, Clone, PartialEq, Eq)]
pub struct Packet {
    pub id: String,
    pub packet_type: i16,
    pub packet_subtype: i16,
    pub payload: Option<Vec<u8>>,
}

/// A binary packet as a value.
pub struct PacketView {
    pub id: Seq<char>,
    pub packet_type: i16,
    pub packet_subtype: i16,
    pub payload: Option<Seq<u8>>,
}

/// The bytes of an optional payload.
pub open spec fn payload_view(p: Option<Vec<u8>>) -> Option<Seq<u8>> {
    match p {
        Some(v) => Some(v@),
        None => None,
    }
}

impl View for Packet {
    type V = PacketView;

    open spec fn view(&self) -> PacketView {
        PacketView {
            id: self.id@,
            packet_type: self.packet_type,
            packet_subtype: self.packet_subtype,
            payload: payload_view(self.payload),
        }
    }
}

/// The sub-kind that answers a request: `0` when it succeeded, `-1` when it failed.
pub open spec fn outcome_subtype(success: bool) -> i16 {
    if success {
        0i16
    } else {
        -1i16
    }
}

impl Packet {
    /// A packet with the given id, kind, sub-kind and payload.
    pub fn new(id: String, t: i16, s: i16, p: Option<Vec<u8>>) -> (packet: Self)
        ensures
            packet@ == (PacketView { id: id@, packet_type: t, packet_subtype: s, payload: payload_view(p) }),
    {
        Packet { id, packet_type: t, packet_subtype: s, payload: p }
    }

    /// The answer to `packet`: same id, kind 2 (action), sub-kind 0 on success
    /// and -1 on failure, with the given payload.
    pub fn respond_to(packet: &Packet, success: bool, payload: Option<Vec<u8>>) -> (answer: Self)
        ensures
            answer@ == (PacketView {
                id: packet.id@,
                packet_type: 2,
                packet_subtype: outcome_subtype(success),
                payload: payload_view(payload),
            }),
    {
        Packet::new(copy_string(&packet.id), 2, if success { 0 } else { -1 }, payload)
    }
}

} // verus!
