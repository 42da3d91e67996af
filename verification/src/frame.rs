//! Framing of binary packets on a byte stream: each packet is preceded by its
//! length in four big-endian bytes.
use vstd::prelude::*;

verus! {

/// The four big-endian bytes of `n`.
pub open spec fn be_bytes(n: u32) -> Seq<u8> {
    seq![(n >> 24u32) as u8, (n >> 16u32) as u8, (n >> 8u32) as u8, n as u8]
}

/// The number that four big-endian bytes stand for.
pub open spec fn be_value(b: Seq<u8>) -> int {
    b[0] * 0x100_0000 + b[1] * 0x1_0000 + b[2] * 0x100 + b[3]
}

/// Reading back the length header of `n` gives `n`.
pub proof fn lemma_be_round_trip(n: u32)
    ensures
        be_value(be_bytes(n)) == n,
{
    let b0 = (n >> 24u32) as u8;
    let b1 = (n >> 16u32) as u8;
    let b2 = (n >> 8u32) as u8;
    let b3 = n as u8;
    assert(b0 as u32 * 0x100_0000u32 + b1 as u32 * 0x1_0000u32 + b2 as u32 * 0x100u32 + b3 as u32 == n)
        by (bit_vector)
        requires
            b0 == (n >> 24u32) as u8,
            b1 == (n >> 16u32) as u8,
            b2 == (n >> 8u32) as u8,
            b3 == n as u8,
    ;
}

/// The header that announces a packet of `len` bytes.
pub fn length_header(len: u32) -> (header: [u8; 4])
    ensures
        header@ == be_bytes(len),
{
    let header = [(len >> 24u32) as u8, (len >> 16u32) as u8, (len >> 8u32) as u8, len as u8];
    assert(header@ =~= be_bytes(len));
    header
}

/// The length that a header announces.
pub fn header_length(header: &[u8; 4]) -> (len: u32)
    ensures
        len == be_value(header@),
{
    let b0 = header[0] as u32;
    let b1 = header[1] as u32;
    let b2 = header[2] as u32;
    let b3 = header[3] as u32;
    b0 * 0x100_0000 + b1 * 0x1_0000 + b2 * 0x100 + b3
}

/// A packet's bytes preceded by their length, unless they are too many to count
/// in a `u32`.
pub fn frame(data: &[u8]) -> (framed: Option<Vec<u8>>)
    ensures
        match framed {
            Some(f) => data@.len() <= u32::MAX && f@ == be_bytes(data@.len() as u32) + data@,
            None => data@.len() > u32::MAX,
        },
{
    if data.len() > 0xffff_ffffusize {
        return None;
    }
    let header = length_header(data.len() as u32);
    let mut out: Vec<u8> = Vec::new();
    out.push(header[0]);
    out.push(header[1]);
    out.push(header[2]);
    out.push(header[3]);
    let ghost head = out@;
    assert(head =~= be_bytes(data@.len() as u32));
    let mut i: usize = 0;
    while i < data.len()
        invariant
            i <= data.len(),
            out@ == head + data@.take(i as int),
        decreases data.len() - i,
    {
        out.push(data[i]);
        i = i + 1;
        assert(data@.take(i as int) =~= data@.take(i - 1).push(data@[i - 1]));
    }
    assert(data@.take(data.len() as int) =~= data@);
    Some(out)
}

} // verus!
