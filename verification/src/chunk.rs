//! The container's chunk framing: a four-byte ASCII name, a big-endian
//! length, then the payload padded with zero bytes to a multiple of four.
//!
//! The padding is appended before the length is computed, so the length
//! field covers the padding bytes. That coupling is the observed wire
//! behaviour of the format as produced here; `align_chunk` below is the one
//! place that decides it.

use vstd::prelude::*;

use crate::bytes::ascii_bytes;
use crate::bytes::be32;
use crate::bytes::push_ascii;
use crate::bytes::push_be32;
use crate::bytes::push_bytes;

verus! {

/// How many zero bytes bring a payload of length `l` up to a multiple of
/// four.
pub open spec fn pad_len(l: int) -> int {
    (4 - l % 4) % 4
}

/// The payload padded with zero bytes to the next multiple of four.
pub open spec fn zero_pad(s: Seq<u8>) -> Seq<u8> {
    s + Seq::new(pad_len(s.len() as int) as nat, |i: int| 0u8)
}

/// The framed chunk: name, big-endian length of the padded payload, padded
/// payload.
pub open spec fn chunk_encoding(name: Seq<char>, payload: Seq<u8>) -> Seq<u8>
    recommends
        name.len() == 4,
        zero_pad(payload).len() <= u32::MAX,
{
    ascii_bytes(name) + be32(zero_pad(payload).len() as u32) + zero_pad(payload)
}

/// Law: a framed chunk is exactly 8 header bytes (4-byte name, 4-byte
/// length) plus the padded payload, and the padded payload's length is a
/// multiple of four, at most 3 bytes longer than the payload itself.
pub proof fn lemma_chunk_framing(name: Seq<char>, payload: Seq<u8>)
    requires
        name.len() == 4,
    ensures
        chunk_encoding(name, payload).len() == 8 + zero_pad(payload).len(),
        zero_pad(payload).len() % 4 == 0,
        payload.len() <= zero_pad(payload).len() <= payload.len() + 3,
        chunk_encoding(name, payload).subrange(0, 4) =~= ascii_bytes(name),
{
}

/// Pads the buffer with zero bytes up to the next multiple of four.
fn align_chunk(chunk: &mut Vec<u8>)
    ensures
        final(chunk)@ == zero_pad(old(chunk)@),
{
    let pad: usize = (4 - chunk.len() % 4) % 4;
    let mut i: usize = 0;
    while i < pad
        invariant
            pad == pad_len(old(chunk)@.len() as int),
            i <= pad,
            chunk@ == old(chunk)@ + Seq::new(i as nat, |j: int| 0u8),
        decreases pad - i,
    {
        chunk.push(0u8);
        assert(chunk@ =~= old(chunk)@ + Seq::new((i + 1) as nat, |j: int| 0u8));
        i = i + 1;
    }
}

/// Frames `chunk` under the four-byte ASCII `chunk_name`, leaving the
/// buffer itself padded. The returned bytes are the full framed chunk.
pub fn encode_chunk(chunk_name: &str, chunk: &mut Vec<u8>) -> (r: Vec<u8>)
    requires
        chunk_name.is_ascii(),
        chunk_name@.len() == 4,
        old(chunk)@.len() + 3 <= u32::MAX,
    ensures
        final(chunk)@ == zero_pad(old(chunk)@),
        r@ == chunk_encoding(chunk_name@, old(chunk)@),
{
    align_chunk(chunk);
    let mut content: Vec<u8> = Vec::new();
    push_ascii(&mut content, chunk_name);
    push_be32(&mut content, chunk.len() as u32);
    push_bytes(&mut content, chunk);
    assert(content@ =~= chunk_encoding(chunk_name@, old(chunk)@));
    content
}

} // verus!
