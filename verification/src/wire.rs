//! Transport framing: one logical message per frame. A frame on the wire is
//! a four-byte big-endian length followed by exactly that many payload
//! bytes; the payload is the serialized tagged object, whose layout the
//! remote proxy defines. Framing and parsing invert each other, so a
//! well-formed stream never splits or merges messages.
use vstd::prelude::*;

verus! {

/// The bytes of one frame: the payload length in four big-endian bytes,
/// then the payload.
pub open spec fn framed_spec(payload: Seq<u8>) -> Seq<u8> {
    u32_be_bytes(payload.len() as u32) + payload
}

/// A `u32` in four big-endian bytes.
pub open spec fn u32_be_bytes(v: u32) -> Seq<u8> {
    seq![
        (v / 0x1000000) as u8,
        ((v / 0x10000) % 0x100) as u8,
        ((v / 0x100) % 0x100) as u8,
        (v % 0x100) as u8,
    ]
}

/// The `u32` read from four big-endian bytes.
pub open spec fn u32_from_be(b0: u8, b1: u8, b2: u8, b3: u8) -> u32 {
    (b0 * 0x1000000 + b1 * 0x10000 + b2 * 0x100 + b3) as u32
}

/// Reading four big-endian bytes yields the value they were written from.
pub proof fn lemma_u32_be_round_trip(v: u32)
    ensures
        u32_from_be(
            u32_be_bytes(v)[0],
            u32_be_bytes(v)[1],
            u32_be_bytes(v)[2],
            u32_be_bytes(v)[3],
        ) == v,
{
    assert((v / 0x1000000) * 0x1000000 + ((v / 0x10000) % 0x100) * 0x10000 + ((v / 0x100)
        % 0x100) * 0x100 + (v % 0x100) == v) by (nonlinear_arith);
}

/// Wrap one payload into a frame.
pub fn frame_message(payload: &Vec<u8>) -> (r: Vec<u8>)
    requires
        payload@.len() <= u32::MAX,
    ensures
        r@ == framed_spec(payload@),
        r@.len() == payload@.len() + 4,
{
    let n = payload.len() as u32;
    let mut out: Vec<u8> = Vec::new();
    out.push((n / 0x1000000) as u8);
    out.push(((n / 0x10000) % 0x100) as u8);
    out.push(((n / 0x100) % 0x100) as u8);
    out.push((n % 0x100) as u8);
    proof {
        assert(out@ =~= u32_be_bytes(n));
    }
    let mut i: usize = 0;
    let len = payload.len();
    while i < len
        invariant
            len == payload@.len(),
            i <= len,
            out@ == u32_be_bytes(payload@.len() as u32) + payload@.subrange(0, i as int),
        decreases len - i,
    {
        out.push(payload[i]);
        i = i + 1;
        proof {
            assert(out@ =~= u32_be_bytes(payload@.len() as u32) + payload@.subrange(0, i as int));
        }
    }
    proof {
        assert(payload@.subrange(0, len as int) =~= payload@);
    }
    out
}

/// Parse one frame that starts at `start`: the payload and the position of
/// the next frame. `None` when no whole frame is there yet — the reader must
/// wait for more bytes.
pub fn parse_frame(buf: &Vec<u8>, start: usize) -> (r: Option<(Vec<u8>, usize)>)
    requires
        start <= buf@.len(),
    ensures
        r is Some <==> start + 4 <= buf@.len() && start + 4 + u32_from_be(
            buf@[start as int],
            buf@[start + 1],
            buf@[start + 2],
            buf@[start + 3],
        ) <= buf@.len(),
        r matches Some((payload, next)) ==> ({
            let n = u32_from_be(
                buf@[start as int],
                buf@[start + 1],
                buf@[start + 2],
                buf@[start + 3],
            );
            &&& payload@ == buf@.subrange(start + 4, start + 4 + n)
            &&& next == start + 4 + n
            &&& next <= buf@.len()
        }),
{
    let total = buf.len();
    if total - start < 4 {
        return None;
    }
    let b0 = buf[start];
    let b1 = buf[start + 1];
    let b2 = buf[start + 2];
    let b3 = buf[start + 3];
    let n: u32 = (b0 as u32) * 0x1000000 + (b1 as u32) * 0x10000 + (b2 as u32) * 0x100 + (
    b3 as u32);
    assert(n == u32_from_be(b0, b1, b2, b3));
    let avail = (total - start - 4) as u64;
    if avail < (n as u64) {
        return None;
    }
    let n = n as usize;
    let mut payload: Vec<u8> = Vec::new();
    let mut i: usize = 0;
    while i < n
        invariant
            total == buf@.len(),
            start + 4 + n <= total,
            i <= n,
            payload@ == buf@.subrange(start + 4, start + 4 + i),
        decreases n - i,
    {
        payload.push(buf[start + 4 + i]);
        i = i + 1;
        proof {
            assert(payload@ =~= buf@.subrange(start + 4, start + 4 + i));
        }
    }
    Some((payload, start + 4 + n))
}

/// Framing and parsing invert each other: a frame written at the head of a
/// stream parses back to exactly its payload, and the parser resumes exactly
/// where the following frame begins.
pub proof fn lemma_frame_round_trip(payload: Seq<u8>, rest: Seq<u8>)
    requires
        payload.len() <= u32::MAX,
    ensures
        ({
            let stream = framed_spec(payload) + rest;
            &&& u32_from_be(stream[0], stream[1], stream[2], stream[3]) == payload.len()
            &&& stream.subrange(4, 4 + payload.len() as int) == payload
            &&& stream.subrange(
                4 + payload.len() as int,
                stream.len() as int,
            ) == rest
        }),
{
    let stream = framed_spec(payload) + rest;
    lemma_u32_be_round_trip(payload.len() as u32);
    assert(stream[0] == u32_be_bytes(payload.len() as u32)[0]);
    assert(stream[1] == u32_be_bytes(payload.len() as u32)[1]);
    assert(stream[2] == u32_be_bytes(payload.len() as u32)[2]);
    assert(stream[3] == u32_be_bytes(payload.len() as u32)[3]);
    assert(stream.subrange(4, 4 + payload.len() as int) =~= payload);
    assert(stream.subrange(4 + payload.len() as int, stream.len() as int) =~= rest);
}

} // verus!
