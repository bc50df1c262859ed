//! Byte-level helpers shared by every chunk encoder: big-endian 32-bit
//! fields and ASCII text rendered as raw bytes.

use vstd::prelude::*;

verus! {

/// The four big-endian bytes of a 32-bit unsigned value.
pub open spec fn be32(n: u32) -> Seq<u8> {
    seq![
        (n / 0x1000000) as u8,
        ((n / 0x10000) % 256) as u8,
        ((n / 256) % 256) as u8,
        (n % 256) as u8,
    ]
}

/// An ASCII character sequence viewed as its byte encoding.
pub open spec fn ascii_bytes(s: Seq<char>) -> Seq<u8> {
    Seq::new(s.len(), |i: int| s[i] as u8)
}

/// Appends the big-endian encoding of `n` to `out`.
pub fn push_be32(out: &mut Vec<u8>, n: u32)
    ensures
        final(out)@ == old(out)@ + be32(n),
{
    assert(n / 0x1000000 < 256);
    out.push((n / 0x1000000) as u8);
    out.push(((n / 0x10000) % 256) as u8);
    out.push(((n / 256) % 256) as u8);
    out.push((n % 256) as u8);
    assert(out@ =~= old(out)@ + be32(n));
}

/// Appends the bytes of an ASCII string to `out`.
pub fn push_ascii(out: &mut Vec<u8>, s: &str)
    requires
        s.is_ascii(),
    ensures
        final(out)@ == old(out)@ + ascii_bytes(s@),
{
    let len = s.unicode_len();
    let mut i: usize = 0;
    while i < len
        invariant
            s.is_ascii(),
            len == s@.len(),
            i <= len,
            out@ == old(out)@ + ascii_bytes(s@).take(i as int),
        decreases len - i,
    {
        let b = s.get_ascii(i);
        out.push(b);
        assert(out@ =~= old(out)@ + ascii_bytes(s@).take(i + 1));
        i = i + 1;
    }
    assert(ascii_bytes(s@).take(len as int) =~= ascii_bytes(s@));
}

/// Appends all bytes of `src` to `dst`.
pub fn push_bytes(dst: &mut Vec<u8>, src: &Vec<u8>)
    ensures
        final(dst)@ == old(dst)@ + src@,
{
    let mut i: usize = 0;
    while i < src.len()
        invariant
            i <= src@.len(),
            dst@ == old(dst)@ + src@.take(i as int),
        decreases src@.len() - i,
    {
        let b = src[i];
        dst.push(b);
        assert(dst@ =~= old(dst)@ + src@.take(i + 1));
        i = i + 1;
    }
    assert(src@.take(src@.len() as int) =~= src@);
}

} // verus!
