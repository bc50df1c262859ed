//! First-occurrence search over sequences, decimal digit strings, and
//! character-wise string comparison. These are the lookup primitives behind
//! the atom table, import resolution and signature parsing.

use vstd::prelude::*;

verus! {

/// Index of the first element of `s` satisfying `p`, or -1 if none does.
pub open spec fn first_match<T>(s: Seq<T>, p: spec_fn(T) -> bool) -> int
    decreases s.len(),
{
    if s.len() == 0 {
        -1
    } else if p(s[0]) {
        0
    } else {
        let r = first_match(s.drop_first(), p);
        if r < 0 {
            -1
        } else {
            r + 1
        }
    }
}

/// Index of the first occurrence of `c` in `s`, or -1 if `c` does not occur.
pub open spec fn find_char(s: Seq<char>, c: char) -> int {
    first_match(s, |x: char| x == c)
}

/// Where `find_char` lands: at -1 exactly when `c` never occurs, otherwise
/// on the first occurrence.
pub proof fn lemma_find_char_properties(s: Seq<char>, c: char)
    ensures
        find_char(s, c) == -1 ==> forall|j: int| 0 <= j < s.len() ==> s[j] != c,
        find_char(s, c) != -1 ==> {
            let r = find_char(s, c);
            &&& 0 <= r < s.len()
            &&& s[r] == c
            &&& forall|j: int| 0 <= j < r ==> s[j] != c
        },
    decreases s.len(),
{
    if s.len() > 0 && s[0] != c {
        lemma_find_char_properties(s.drop_first(), c);
        let rd = find_char(s.drop_first(), c);
        if rd == -1 {
            assert forall|j: int| 0 <= j < s.len() implies s[j] != c by {
                if j > 0 {
                    assert(s.drop_first()[j - 1] == s[j]);
                }
            }
        } else {
            assert(s.drop_first()[rd] == s[rd + 1]);
            assert forall|j: int| 0 <= j < rd + 1 implies s[j] != c by {
                if j > 0 {
                    assert(s.drop_first()[j - 1] == s[j]);
                }
            }
        }
    }
}

/// If position `i` holds the first occurrence of `c`, `find_char` is `i`.
pub proof fn lemma_find_char_is(s: Seq<char>, c: char, i: int)
    requires
        0 <= i < s.len(),
        s[i] == c,
        forall|j: int| 0 <= j < i ==> s[j] != c,
    ensures
        find_char(s, c) == i,
    decreases i,
{
    if i > 0 {
        assert(s.drop_first()[i - 1] == s[i]);
        assert forall|j: int| 0 <= j < i - 1 implies s.drop_first()[j] != c by {
            assert(s.drop_first()[j] == s[j + 1]);
        }
        lemma_find_char_is(s.drop_first(), c, i - 1);
    }
}

/// A decimal digit.
pub open spec fn is_digit(c: char) -> bool {
    48 <= c as int && c as int <= 57
}

/// Every character of `s` is a decimal digit.
pub open spec fn all_digits(s: Seq<char>) -> bool {
    forall|i: int| 0 <= i < s.len() ==> is_digit(s[i])
}

/// The value of a decimal digit string, most significant digit first.
pub open spec fn digits_val(s: Seq<char>) -> int
    decreases s.len(),
{
    if s.len() == 0 {
        0
    } else {
        digits_val(s.drop_last()) * 10 + (s.last() as int - 48)
    }
}

/// A digit string's value is non-negative.
pub proof fn lemma_digits_val_nonneg(s: Seq<char>)
    requires
        all_digits(s),
    ensures
        digits_val(s) >= 0,
    decreases s.len(),
{
    if s.len() > 0 {
        assert(all_digits(s.drop_last()));
        lemma_digits_val_nonneg(s.drop_last());
    }
}

/// Extending a digit string by one digit multiplies its value by ten and
/// adds the digit.
pub proof fn lemma_digits_val_step(s: Seq<char>, i: int)
    requires
        0 <= i < s.len(),
    ensures
        digits_val(s.take(i + 1)) == digits_val(s.take(i)) * 10 + (s[i] as int - 48),
{
    assert(s.take(i + 1).drop_last() =~= s.take(i));
    assert(s.take(i + 1).last() == s[i]);
}

/// A prefix of a digit string never exceeds the whole string's value.
pub proof fn lemma_digits_prefix_le(s: Seq<char>, i: int)
    requires
        all_digits(s),
        0 <= i <= s.len(),
    ensures
        digits_val(s.take(i)) <= digits_val(s),
    decreases s.len() - i,
{
    if i < s.len() {
        assert(all_digits(s.take(i)));
        lemma_digits_val_nonneg(s.take(i));
        lemma_digits_val_step(s, i);
        lemma_digits_prefix_le(s, i + 1);
    } else {
        assert(s.take(i) =~= s);
    }
}

/// Character-by-character string equality: true exactly when the two views
/// are the same character sequence.
pub fn str_eq_chars(a: &str, b: &str) -> (r: bool)
    ensures
        r == (a@ == b@),
{
    let alen = a.unicode_len();
    let blen = b.unicode_len();
    if alen != blen {
        return false;
    }
    let mut i: usize = 0;
    while i < alen
        invariant
            alen == a@.len(),
            alen == b@.len(),
            i <= alen,
            forall|j: int| 0 <= j < i ==> a@[j] == b@[j],
        decreases alen - i,
    {
        let ca = a.get_char(i);
        let cb = b.get_char(i);
        if ca != cb {
            return false;
        }
        i = i + 1;
    }
    proof {
        assert(a@ =~= b@);
    }
    true
}

} // verus!
