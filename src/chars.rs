//! Conversion between strings and character vectors.
use vstd::prelude::*;

verus! {

broadcast use vstd::string::group_string_axioms;

/// The characters of `s`, in order.
pub fn to_chars(s: &str) -> (r: Vec<char>)
    ensures
        r@ == s@,
{
    let mut v: Vec<char> = Vec::new();
    for c in it: s.chars()
        invariant
            v@ == it.seq().take(it.index() as int),
            it.seq() == s@,
    {
        v.push(c);
    }
    v
}

/// Relies on std's `FromIterator<char>` for `String`: the string holds the
/// characters in order.
#[verifier::external_body]
pub fn from_chars(v: &Vec<char>) -> (r: String)
    ensures
        r@ == v@,
{
    v.iter().collect()
}

} // verus!
