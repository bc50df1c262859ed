//! The compact tagged operand encoding. Every operand embedded in an
//! instruction — immediate integers, atom references, register indices,
//! label identifiers — is encoded through this one scheme, keyed by a small
//! tag naming the operand's kind.
//!
//! The wire layout is fixed by the target virtual machine:
//! - `0 <= n < 16`: one byte, value in the high nibble, tag in the low nibble
//!   (`n << 4 | tag`).
//! - `16 <= n < 2048`: two bytes; the first carries bits 10-8 of `n` in its
//!   top three bits, an "extended form" flag in bit 3 and the tag in bits
//!   2-0 (`((n >> 3) & 0b1110_0000) | 0b0000_1000 | tag`); the second byte
//!   is the low eight bits of `n`.
//! - `n >= 2048` or negative `n` is outside the scheme and refused.

use vstd::prelude::*;

verus! {

/// The kind of an encoded operand.
#[derive(Clone, Copy, PartialEq, Eq, Structural)]
pub enum Tag {
    /// An unsigned literal.
    Unsigned,
    /// A signed integer literal.
    Integer,
    /// A reference to an atom-table entry (one-based on the wire).
    Atom,
    /// An X register index.
    XRegister,
    /// A Y register index.
    YRegister,
    /// A label reference; 0 means "no label".
    Label,
}

/// The tag's identifier on the wire.
pub open spec fn tag_byte(t: Tag) -> u8 {
    match t {
        Tag::Unsigned => 0,
        Tag::Integer => 1,
        Tag::Atom => 2,
        Tag::XRegister => 3,
        Tag::YRegister => 4,
        Tag::Label => 5,
    }
}

/// The bytes the scheme assigns to value `n` under tag `t`. Written
/// arithmetically: `n * 16` is `n` in the high nibble, `(n / 256) * 32`
/// places bits 10-8 of `n` in the first byte's top three bits, and `8` is
/// the extended-form flag.
pub open spec fn tag_encoding(t: Tag, n: int) -> Seq<u8>
    recommends
        0 <= n < 2048,
{
    if n < 16 {
        seq![(n * 16 + tag_byte(t)) as u8]
    } else {
        seq![((n / 256) * 32 + 8 + tag_byte(t)) as u8, (n % 256) as u8]
    }
}

/// The tag a wire identifier denotes, if any.
pub open spec fn tag_of_byte(b: u8) -> Option<Tag> {
    if b == 0 {
        Some(Tag::Unsigned)
    } else if b == 1 {
        Some(Tag::Integer)
    } else if b == 2 {
        Some(Tag::Atom)
    } else if b == 3 {
        Some(Tag::XRegister)
    } else if b == 4 {
        Some(Tag::YRegister)
    } else if b == 5 {
        Some(Tag::Label)
    } else {
        None
    }
}

/// The inverse of `tag_encoding`: reads one encoded operand back into its
/// `(tag, value)` pair, or nothing when the bytes fit neither layout.
pub open spec fn tag_decoding(s: Seq<u8>) -> Option<(Tag, int)> {
    if s.len() == 1 && s[0] % 16 < 8 {
        match tag_of_byte(s[0] % 16) {
            Some(t) => Some((t, s[0] as int / 16)),
            None => None,
        }
    } else if s.len() == 2 && s[0] % 16 >= 8 {
        match tag_of_byte(s[0] % 8) {
            Some(t) => Some((t, (s[0] as int / 32) * 256 + s[1] as int)),
            None => None,
        }
    } else {
        None
    }
}

/// Law: decoding inverts encoding — for every tag and every value the
/// scheme supports, the encoded bytes decode back to the same pair.
pub proof fn lemma_tag_round_trip(t: Tag, n: int)
    requires
        0 <= n < 2048,
    ensures
        tag_decoding(tag_encoding(t, n)) == Some((t, n)),
{
    let tb = tag_byte(t) as int;
    if n < 16 {
        let b = (n * 16 + tb) as u8;
        assert(b as int == n * 16 + tb);
        assert(b as int % 16 == tb) by (nonlinear_arith)
            requires
                b as int == n * 16 + tb,
                0 <= tb < 16,
                0 <= n,
        ;
        assert(b as int / 16 == n) by (nonlinear_arith)
            requires
                b as int == n * 16 + tb,
                0 <= tb < 16,
                0 <= n,
        ;
    } else {
        let q = n / 256;
        let r = n % 256;
        assert(0 <= q < 8 && 0 <= r < 256 && n == q * 256 + r) by (nonlinear_arith)
            requires
                16 <= n < 2048,
                q == n / 256,
                r == n % 256,
        ;
        let b0 = (q * 32 + 8 + tb) as u8;
        assert(b0 as int == q * 32 + 8 + tb);
        assert(b0 as int % 16 == 8 + tb && b0 as int % 8 == tb && b0 as int / 32 == q)
            by (nonlinear_arith)
            requires
                b0 as int == q * 32 + 8 + tb,
                0 <= q < 8,
                0 <= tb < 8,
        ;
    }
}

impl Tag {
    /// Encodes value `n` under this tag. Values outside `[0, 2048)` are not
    /// representable in the scheme and are excluded by precondition.
    pub fn encode(self, n: i32) -> (r: Vec<u8>)
        requires
            0 <= n < 2048,
        ensures
            r@ == tag_encoding(self, n as int),
    {
        let t: u8 = match self {
            Tag::Unsigned => 0,
            Tag::Integer => 1,
            Tag::Atom => 2,
            Tag::XRegister => 3,
            Tag::YRegister => 4,
            Tag::Label => 5,
        };
        let nu = n as u32;
        let mut r: Vec<u8> = Vec::new();
        if nu < 16 {
            r.push((nu * 16) as u8 + t);
        } else {
            r.push(((nu / 256) * 32) as u8 + 8 + t);
            r.push((nu % 256) as u8);
        }
        assert(r@ =~= tag_encoding(self, n as int));
        r
    }
}

} // verus!

