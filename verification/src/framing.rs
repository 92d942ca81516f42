use vstd::prelude::*;
use crate::protocol::PACKET_SIZE;

verus! {

/// The two bytes (most significant first) of a `u16` length prefix.
pub open spec fn be16(n: int) -> Seq<u8> {
    seq![(n / 256) as u8, (n % 256) as u8]
}

/// The bytes of a framed vector: its length as a big-endian `u16`, then
/// the vector.
pub open spec fn spec_vector_frame(payload: Seq<u8>) -> Seq<u8> {
    be16(payload.len() as int) + payload
}

/// What a reader takes from bytes that start with a framed vector: the
/// vector, when all its announced bytes are there.
pub open spec fn spec_read_vector_frame(bytes: Seq<u8>) -> Option<Seq<u8>> {
    if bytes.len() < 2 {
        None
    } else {
        let n = bytes[0] as int * 256 + bytes[1] as int;
        if bytes.len() < 2 + n {
            None
        } else {
            Some(bytes.subrange(2, 2 + n))
        }
    }
}

/// Frames a vector for the other side's reader (a length prefix, then the
/// bytes); the vector must be shorter than a packet.
pub fn vector_frame(payload: &Vec<u8>) -> (frame: Vec<u8>)
    requires
        payload@.len() < PACKET_SIZE,
    ensures
        frame@ == spec_vector_frame(payload@),
{
    let n = payload.len();
    let mut frame: Vec<u8> = Vec::new();
    frame.push((n / 256) as u8);
    frame.push((n % 256) as u8);
    let mut i: usize = 0;
    while i < n
        invariant
            n == payload@.len(),
            0 <= i <= n,
            frame@ == be16(n as int) + payload@.take(i as int),
        decreases n - i,
    {
        frame.push(payload[i]);
        assert(payload@.take(i as int).push(payload@[i as int]) =~= payload@.take(i + 1));
        assert((be16(n as int) + payload@.take(i as int)).push(payload@[i as int]) =~= be16(
            n as int,
        ) + payload@.take(i + 1));
        i = i + 1;
    }
    assert(payload@.take(n as int) =~= payload@);
    frame
}

/// The length announced by a two-byte prefix.
pub fn frame_length(hi: u8, lo: u8) -> (n: u16)
    ensures
        n == hi as int * 256 + lo as int,
{
    hi as u16 * 256 + lo as u16
}

/// Reads a framed vector from the start of `bytes`: the announced number
/// of bytes after the prefix, or nothing when fewer are there.
pub fn read_vector_frame(bytes: &Vec<u8>) -> (res: Option<Vec<u8>>)
    ensures
        match res {
            Some(v) => spec_read_vector_frame(bytes@) == Some(v@),
            None => spec_read_vector_frame(bytes@) is None,
        },
{
    if bytes.len() < 2 {
        return None;
    }
    let n = frame_length(bytes[0], bytes[1]) as usize;
    if bytes.len() - 2 < n {
        return None;
    }
    let mut v: Vec<u8> = Vec::new();
    let mut i: usize = 0;
    while i < n
        invariant
            bytes@.len() >= 2 + n,
            n == bytes@[0] as int * 256 + bytes@[1] as int,
            0 <= i <= n,
            v@ == bytes@.subrange(2, 2 + i as int),
        decreases n - i,
    {
        v.push(bytes[2 + i]);
        assert(bytes@.subrange(2, 2 + i as int).push(bytes@[2 + i]) =~= bytes@.subrange(
            2,
            2 + i + 1,
        ));
        i = i + 1;
    }
    Some(v)
}

/// Framing law: the reader gives back exactly the vector the writer
/// framed, whatever follows it on the stream.
pub proof fn law_vector_frame_roundtrip(payload: Seq<u8>, rest: Seq<u8>)
    requires
        payload.len() < 65533,
    ensures
        spec_read_vector_frame(spec_vector_frame(payload) + rest) == Some(payload),
{
    let n = payload.len() as int;
    let bytes = spec_vector_frame(payload) + rest;
    assert(bytes[0] == (n / 256) as u8);
    assert(bytes[1] == (n % 256) as u8);
    assert(bytes[0] as int * 256 + bytes[1] as int == n);
    assert(bytes.subrange(2, 2 + n) =~= payload);
}

/// What a short read keeps: the first `received` bytes of the buffer.
pub fn truncate_read(buf: Vec<u8>, received: usize) -> (kept: Vec<u8>)
    requires
        received <= buf@.len(),
    ensures
        kept@ == buf@.take(received as int),
{
    let mut buf = buf;
    buf.truncate(received);
    buf
}

} // verus!
