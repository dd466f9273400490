//! Length-prefixed framing: every message on the wire is a 4-byte big-endian
//! length followed by that many bytes.

use vstd::prelude::*;
use crate::text::{concat3, decimal, u64_decimal};

verus! {

/// Largest frame body the desktop server accepts.
pub const DESKTOP_FRAME_LIMIT: usize = 65000;

/// Largest frame body the PC server and the phone client accept.
pub const FRAME_LIMIT: usize = 65535;

/// The four big-endian bytes of `n` (`n < 2^32`).
pub open spec fn be_bytes(n: nat) -> Seq<u8> {
    seq![
        ((n / 16777216) % 256) as u8,
        ((n / 65536) % 256) as u8,
        ((n / 256) % 256) as u8,
        (n % 256) as u8,
    ]
}

/// The number that four big-endian bytes stand for.
pub open spec fn be_value(h: Seq<u8>) -> nat {
    (h[0] * 16777216 + h[1] * 65536 + h[2] * 256 + h[3]) as nat
}

/// The length header written in front of a body of `len` bytes: the length
/// truncated to 32 bits, big-endian.
pub open spec fn header_for(len: nat) -> Seq<u8> {
    be_bytes(len % 4294967296)
}

/// The whole frame that carries `data`.
pub open spec fn framed(data: Seq<u8>) -> Seq<u8> {
    header_for(data.len()) + data
}

/// The error text for a header that announces more than the limit.
pub open spec fn too_large_message(len: nat) -> Seq<char> {
    "Слишком большой фрейм: "@ + decimal(len) + " байт"@
}

/// Reading a header back gives the number it was written for.
pub proof fn lemma_be_roundtrip(n: nat)
    requires
        n < 4294967296,
    ensures
        be_value(be_bytes(n)) == n,
        be_bytes(n).len() == 4,
{
    let b0 = (n / 16777216) % 256;
    let b1 = (n / 65536) % 256;
    let b2 = (n / 256) % 256;
    let b3 = n % 256;
    assert(b0 * 16777216 + b1 * 65536 + b2 * 256 + b3 == n) by (nonlinear_arith)
        requires
            n < 4294967296,
            b0 == (n / 16777216) % 256,
            b1 == (n / 65536) % 256,
            b2 == (n / 256) % 256,
            b3 == n % 256,
    ;
}

/// The frame that carries `data`.
pub fn encode_frame(data: &[u8]) -> (out: Vec<u8>)
    requires
        data@.len() + 4 <= usize::MAX,
    ensures
        out@ == framed(data@),
{
    let n: u64 = (data.len() as u64) % 4294967296;
    let mut out: Vec<u8> = Vec::new();
    out.push(((n / 16777216) % 256) as u8);
    out.push(((n / 65536) % 256) as u8);
    out.push(((n / 256) % 256) as u8);
    out.push((n % 256) as u8);
    let mut i: usize = 0;
    while i < data.len()
        invariant
            i <= data@.len(),
            n == data@.len() % 4294967296,
            out@ == header_for(data@.len()) + data@.subrange(0, i as int),
        decreases data@.len() - i,
    {
        out.push(data[i]);
        i = i + 1;
        assert(data@.subrange(0, i as int) == data@.subrange(0, i - 1).push(data@[i - 1]));
    }
    assert(data@.subrange(0, data@.len() as int) == data@);
    out
}

/// The length a 4-byte big-endian header announces (`u32::from_be_bytes`).
pub fn header_len(header: &[u8]) -> (len: u32)
    requires
        header@.len() == 4,
    ensures
        len == be_value(header@),
{
    (header[0] as u32) * 16777216 + (header[1] as u32) * 65536 + (header[2] as u32) * 256
        + (header[3] as u32)
}

/// Accept an announced body length, or refuse it when it exceeds `limit`,
/// before the body is read.
pub fn check_frame_len(len: u32, limit: usize) -> (r: Result<usize, String>)
    ensures
        len <= limit ==> r == Ok::<usize, String>(len as usize),
        len > limit ==> (r matches Err(msg) && msg@ == too_large_message(len as nat)),
{
    if (len as u64) > (limit as u64) {
        Err(concat3("Слишком большой фрейм: ", u64_decimal(len as u64).as_str(), " байт"))
    } else {
        Ok(len as usize)
    }
}

/// The body length that the header of a frame announces.
pub fn frame_body_len(header: &[u8], limit: usize) -> (r: Result<usize, String>)
    requires
        header@.len() == 4,
    ensures
        be_value(header@) <= limit ==> r == Ok::<usize, String>(be_value(header@) as usize),
        be_value(header@) > limit ==> (r matches Err(msg) && msg@ == too_large_message(be_value(header@))),
{
    check_frame_len(header_len(header), limit)
}

/// Law (framing round trip): the header of the frame that carries `data`
/// announces exactly `data.len()` bytes, and the bytes that follow it are `data`.
pub proof fn law_frame_roundtrip(data: Seq<u8>)
    requires
        data.len() < 4294967296,
    ensures
        framed(data).len() == data.len() + 4,
        be_value(framed(data).subrange(0, 4)) == data.len(),
        framed(data).subrange(4, framed(data).len() as int) == data,
{
    lemma_be_roundtrip(data.len());
    assert(framed(data).subrange(0, 4) == header_for(data.len()));
    assert(framed(data).subrange(4, framed(data).len() as int) == data);
}

/// Law (framing limit): a frame whose body is within the limit is accepted by
/// the receiving check with its exact length; a larger one is refused.
pub proof fn law_frame_limit(data: Seq<u8>, limit: nat)
    requires
        data.len() < 4294967296,
    ensures
        be_value(framed(data).subrange(0, 4)) <= limit <==> data.len() <= limit,
{
    law_frame_roundtrip(data);
}

} // verus!
