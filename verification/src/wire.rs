//! The text packet that game clients and the server exchange over UDP:
//! `"<type>|<subtype>|<payload>"`, the two kinds written in decimal.
use vstd::prelude::*;

use crate::decimal::{i16_from_chars, i16_from_text, i16_to_chars, int_text, lemma_i16_text_round_trip};
use crate::text::{
    chars_of, join_chars_from, join_with, lemma_join_split, lemma_split_append, lemma_split_shape,
    lemma_split_single, split_chars, split_on, split_text, string_of, strings_view,
    trim_chars, trimmed,
};

verus! {

/// A text packet: its kind, its sub-kind and a free-form payload.
#[derive(Debug, Clone, PartialEq, Eq)]
pub struct Packet {
    pub packet_type: i16,
    pub packet_subtype: i16,
    pub payload: String,
}

/// A text packet as a value: kind, sub-kind and the payload's characters.
pub struct PacketView {
    pub packet_type: i16,
    pub packet_subtype: i16,
    pub payload: Seq<char>,
}

impl View for Packet {
    type V = PacketView;

    open spec fn view(&self) -> PacketView {
        PacketView {
            packet_type: self.packet_type,
            packet_subtype: self.packet_subtype,
            payload: self.payload@,
        }
    }
}

/// The text of a packet: the kind, `|`, the sub-kind, `|`, the payload.
pub open spec fn encoded(packet_type: i16, packet_subtype: i16, payload: Seq<char>) -> Seq<char> {
    int_text(packet_type as int) + seq!['|'] + int_text(packet_subtype as int) + seq!['|']
        + payload
}

/// A kind read from text, `-1` where the text is no `i16`.
pub open spec fn kind_or_unknown(text: Seq<char>) -> i16 {
    match i16_from_text(text) {
        Some(v) => v,
        None => -1i16,
    }
}

/// The packet that a text decodes to: the text is cut at its first two `|`;
/// a missing or unreadable kind is `-1`, a missing payload is empty, and the
/// payload keeps any further `|`.
pub open spec fn decoded(text: Seq<char>) -> PacketView {
    let parts = split_on(text, '|');
    PacketView {
        packet_type: kind_or_unknown(parts[0]),
        packet_subtype: if parts.len() >= 2 {
            kind_or_unknown(parts[1])
        } else {
            -1i16
        },
        payload: if parts.len() >= 3 {
            join_with(parts.subrange(2, parts.len() as int), '|')
        } else {
            Seq::<char>::empty()
        },
    }
}

/// Decoding the text of a packet gives back the packet, whatever its payload holds.
pub proof fn lemma_decode_encode(packet_type: i16, packet_subtype: i16, payload: Seq<char>)
    ensures
        decoded(encoded(packet_type, packet_subtype, payload)) == (PacketView {
            packet_type,
            packet_subtype,
            payload,
        }),
{
    let a = int_text(packet_type as int);
    let b = int_text(packet_subtype as int);
    lemma_i16_text_round_trip(packet_type);
    lemma_i16_text_round_trip(packet_subtype);
    assert(!a.contains('|')) by {
        if a.contains('|') {
            let k = choose|k: int| 0 <= k < a.len() && a[k] == '|';
            crate::decimal::lemma_int_text_chars(packet_type as int, k);
            assert(!crate::decimal::is_digit('|'));
        }
    }
    assert(!b.contains('|')) by {
        if b.contains('|') {
            let k = choose|k: int| 0 <= k < b.len() && b[k] == '|';
            crate::decimal::lemma_int_text_chars(packet_subtype as int, k);
            assert(!crate::decimal::is_digit('|'));
        }
    }
    lemma_split_single(a, '|');
    lemma_split_single(b, '|');
    lemma_split_append(b, '|', payload);
    lemma_split_append(a, '|', b.push('|') + payload);
    let text = encoded(packet_type, packet_subtype, payload);
    assert(text =~= a.push('|') + (b.push('|') + payload));
    let parts = split_on(text, '|');
    lemma_split_shape(payload, '|');
    assert(parts =~= seq![a] + (seq![b] + split_on(payload, '|')));
    assert(parts.subrange(2, parts.len() as int) =~= split_on(payload, '|'));
    lemma_join_split(payload, '|');
}

impl Packet {
    /// A packet of the given kind, sub-kind and payload.
    pub fn new(t: i16, s: i16, p: String) -> (packet: Packet)
        ensures
            packet@ == (PacketView { packet_type: t, packet_subtype: s, payload: p@ }),
    {
        Packet { packet_type: t, packet_subtype: s, payload: p }
    }

    /// The packet's text.
    pub fn encode(&self) -> (text: String)
        ensures
            text@ == encoded(self.packet_type, self.packet_subtype, self.payload@),
    {
        let mut out = i16_to_chars(self.packet_type);
        out.push('|');
        let sub = i16_to_chars(self.packet_subtype);
        let mut i: usize = 0;
        let ghost head = out@;
        while i < sub.len()
            invariant
                i <= sub.len(),
                out@ == head + sub@.take(i as int),
            decreases sub.len() - i,
        {
            out.push(sub[i]);
            i = i + 1;
            assert(sub@.take(i as int) =~= sub@.take(i - 1).push(sub[i - 1]));
        }
        assert(sub@.take(sub.len() as int) =~= sub@);
        out.push('|');
        let body = chars_of(self.payload.as_str());
        let ghost head2 = out@;
        let mut j: usize = 0;
        while j < body.len()
            invariant
                j <= body.len(),
                out@ == head2 + body@.take(j as int),
            decreases body.len() - j,
        {
            out.push(body[j]);
            j = j + 1;
            assert(body@.take(j as int) =~= body@.take(j - 1).push(body[j - 1]));
        }
        assert(body@.take(body.len() as int) =~= body@);
        assert(out@ =~= encoded(self.packet_type, self.packet_subtype, self.payload@));
        string_of(&out)
    }

    /// The text of a new packet of the given kind, sub-kind and payload.
    pub fn encode_new(t: i16, s: i16, p: String) -> (text: String)
        ensures
            text@ == encoded(t, s, p@),
    {
        Packet::new(t, s, p).encode()
    }

    /// The packet that a text denotes; every text denotes one (see `decoded`).
    pub fn decode(packet: String) -> (decoded_packet: Packet)
        ensures
            decoded_packet@ == decoded(packet@),
    {
        let text = chars_of(packet.as_str());
        let parts = split_chars(&text, '|');
        proof {
            lemma_split_shape(text@, '|');
        }
        assert(parts[0]@ == split_on(packet@, '|')[0]);
        let packet_type = match i16_from_chars(&parts[0]) {
            Some(v) => v,
            None => -1i16,
        };
        let subtype = if parts.len() >= 2 {
            assert(parts[1]@ == split_on(packet@, '|')[1]);
            match i16_from_chars(&parts[1]) {
                Some(v) => v,
                None => -1i16,
            }
        } else {
            -1i16
        };
        let payload = if parts.len() >= 3 {
            let rest = join_chars_from(&parts, 2, '|');
            string_of(&rest)
        } else {
            string_of(&Vec::new())
        };
        Packet::new(packet_type, subtype, payload)
    }

    /// The payload's fields: the pieces between its `;`.
    pub fn parse_payload(&self) -> (fields: Vec<String>)
        ensures
            strings_view(fields@) == split_on(self.payload@, ';'),
    {
        split_text(self.payload.as_str(), ';')
    }
}

/// The packet that a received message denotes: the message is decoded once its
/// leading and trailing white space is cut off.
pub fn decode_message(message: &str) -> (packet: Packet)
    ensures
        packet@ == decoded(trimmed(message@)),
{
    let text = trim_chars(&chars_of(message));
    Packet::decode(string_of(&text))
}

/// The three fields that a game client reads from a received packet, as text:
/// kind, sub-kind and payload; when nothing arrived, two `-1` and `empty_payload`.
pub fn read_fields(packet: Option<Packet>, empty_payload: &str) -> (fields: (String, String, String))
    ensures
        match packet {
            Some(p) => fields.0@ == int_text(p.packet_type as int) && fields.1@ == int_text(
                p.packet_subtype as int,
            ) && fields.2@ == p.payload@,
            None => fields.0@ == int_text(-1) && fields.1@ == int_text(-1) && fields.2@
                == empty_payload@,
        },
{
    match packet {
        Some(p) => (
            string_of(&i16_to_chars(p.packet_type)),
            string_of(&i16_to_chars(p.packet_subtype)),
            p.payload,
        ),
        None => (
            string_of(&i16_to_chars(-1)),
            string_of(&i16_to_chars(-1)),
            empty_payload.to_string(),
        ),
    }
}

/// The fields of a payload: the pieces between its `;`.
pub fn parse_payload(payload: &str) -> (fields: Vec<String>)
    ensures
        strings_view(fields@) == split_on(payload@, ';'),
{
    split_text(payload, ';')
}

} // verus!
