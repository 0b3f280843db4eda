//! String helpers with exact contracts over the character sequence of a string.

use vstd::prelude::*;
use vstd::string::*;

verus! {

/// `true` exactly when `prefix` is a prefix of `s`.
pub open spec fn has_prefix(s: Seq<char>, prefix: Seq<char>) -> bool {
    prefix.len() <= s.len() && s.subrange(0, prefix.len() as int) == prefix
}

/// Compares two string slices character by character.
pub fn text_eq(a: &str, b: &str) -> (res: bool)
    ensures
        res == (a@ == b@),
{
    let x = a.to_owned();
    let y = b.to_owned();
    x == y
}

/// Builds a new string from the concatenation of three slices.
pub fn concat3(a: &str, b: &str, c: &str) -> (res: String)
    ensures
        res@ == a@ + b@ + c@,
{
    let s = a.to_owned();
    let s = s.concat(b);
    s.concat(c)
}

/// Builds a new string from the concatenation of two slices.
pub fn concat2(a: &str, b: &str) -> (res: String)
    ensures
        res@ == a@ + b@,
{
    let s = a.to_owned();
    s.concat(b)
}

/// Returns the rest of `s` after `prefix`, when `s` starts with `prefix`.
pub fn strip_prefix(s: &str, prefix: &str) -> (res: Option<String>)
    ensures
        has_prefix(s@, prefix@) ==> (res matches Some(r) && r@ == s@.subrange(prefix@.len() as int, s@.len() as int)),
        !has_prefix(s@, prefix@) ==> res is None,
{
    let n = s.unicode_len();
    let m = prefix.unicode_len();
    if m > n {
        return None;
    }
    let mut i: usize = 0;
    while i < m
        invariant
            n == s@.len(),
            m == prefix@.len(),
            m <= n,
            i <= m,
            forall|j: int| 0 <= j < i ==> s@[j] == prefix@[j],
        decreases m - i,
    {
        if s.get_char(i) != prefix.get_char(i) {
            assert(s@.subrange(0, m as int)[i as int] != prefix@[i as int]);
            return None;
        }
        i = i + 1;
    }
    assert(s@.subrange(0, m as int) =~= prefix@);
    let rest = s.substring_char(m, n);
    Some(rest.to_owned())
}

} // verus!
