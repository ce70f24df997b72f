//! Small verified helpers over strings: equality, suffix tests, and
//! membership of a string in a vector of strings.
use vstd::prelude::*;

verus! {

/// True when `s` ends with the characters of `suffix`.
pub open spec fn spec_ends_with(s: Seq<char>, suffix: Seq<char>) -> bool {
    suffix.len() <= s.len() && s.subrange(s.len() - suffix.len(), s.len() as int) == suffix
}

/// True when some element of `v` views to exactly `x`.
pub open spec fn spec_contains_str(v: Seq<String>, x: Seq<char>) -> bool {
    exists|i: int| 0 <= i < v.len() && v[i]@ == x
}

/// Character-for-character equality of two string slices.
pub fn str_eq(a: &str, b: &str) -> (r: bool)
    ensures
        r == (a@ == b@),
{
    let sa: String = a.to_owned();
    let sb: String = b.to_owned();
    sa == sb
}

/// Whether `s` ends with `suffix`, by characters.
pub fn ends_with(s: &str, suffix: &str) -> (r: bool)
    ensures
        r == spec_ends_with(s@, suffix@),
{
    let n = s.unicode_len();
    let m = suffix.unicode_len();
    if m > n {
        return false;
    }
    let tail = s.substring_char(n - m, n);
    str_eq(tail, suffix)
}

/// Whether some element of `v` equals `x`, by characters.
pub fn contains_str(v: &Vec<String>, x: &str) -> (r: bool)
    ensures
        r == spec_contains_str(v@, x@),
{
    let n = v.len();
    for i in 0..n
        invariant
            n == v.len(),
            forall|j: int| 0 <= j < i ==> v[j]@ != x@,
    {
        if str_eq(v[i].as_str(), x) {
            return true;
        }
    }
    false
}

} // verus!
