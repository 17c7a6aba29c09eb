//! Character-level helpers shared by the token parsers: ASCII case folding
//! and plain string equality, specified over `Seq<char>` views.

use vstd::prelude::*;
use vstd::string::StrSliceExecFns;

verus! {

/// The Unicode scalar value of `c`, with an ASCII upper-case letter
/// (`'A'..='Z'`, scalars 65..=90) mapped to its lower-case counterpart.
/// Every other character is left unchanged.
pub open spec fn fold_scalar(c: char) -> u32 {
    if 65 <= c as u32 && c as u32 <= 90 {
        (c as u32 + 32) as u32
    } else {
        c as u32
    }
}

/// Two character sequences match ignoring ASCII case: same length, and each
/// pair of characters folds to the same scalar.
pub open spec fn matches_ci(s: Seq<char>, t: Seq<char>) -> bool {
    &&& s.len() == t.len()
    &&& forall|i: int| 0 <= i < s.len() ==> fold_scalar(s[i]) == fold_scalar(t[i])
}

/// ASCII-case-fold one character to its scalar value.
pub fn fold_char(c: char) -> (r: u32)
    ensures
        r == fold_scalar(c),
{
    let u = c as u32;
    if 65 <= u && u <= 90 {
        u + 32
    } else {
        u
    }
}

/// Whether `s` equals the token `t` ignoring ASCII case.
pub fn eq_ignore_ascii_case(s: &str, t: &Vec<char>) -> (r: bool)
    ensures
        r == matches_ci(s@, t@),
{
    let n = s.unicode_len();
    if n != t.len() {
        return false;
    }
    for i in 0..n
        invariant
            n == s@.len(),
            n == t@.len(),
            forall|j: int| 0 <= j < i ==> fold_scalar(s@[j]) == fold_scalar(t@[j]),
    {
        let a = fold_char(s.get_char(i));
        let b = fold_char(t[i]);
        if a != b {
            return false;
        }
    }
    true
}

/// Whether `a` and `b` hold the same characters.
pub fn str_eq(a: &str, b: &str) -> (r: bool)
    ensures
        r == (a@ == b@),
{
    let n = a.unicode_len();
    if n != b.unicode_len() {
        return false;
    }
    for i in 0..n
        invariant
            n == a@.len(),
            n == b@.len(),
            forall|j: int| 0 <= j < i ==> a@[j] == b@[j],
    {
        if a.get_char(i) != b.get_char(i) {
            return false;
        }
    }
    proof {
        assert(a@ =~= b@);
    }
    true
}

} // verus!
