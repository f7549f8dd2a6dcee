//! Scanners for the fixed textual patterns that the login pages carry.
//!
//! Each pattern is a literal lead followed by a capture that runs to a
//! terminator on the same line. A capture never spans a line break. The
//! leftmost lead that is followed by a terminator wins; a greedy capture
//! runs to the last terminator on the line, a lazy one to the first.
use vstd::prelude::*;

verus! {

/// `p` stands in `s` at position `i`.
pub open spec fn has_at(s: Seq<char>, p: Seq<char>, i: int) -> bool {
    0 <= i && i + p.len() <= s.len() && s.subrange(i, i + p.len()) == p
}

/// `p` stands somewhere in `s`.
pub open spec fn contains(s: Seq<char>, p: Seq<char>) -> bool {
    exists|i: int| has_at(s, p, i)
}

/// Scanning the line forward from `k`: the last position where `t` stands
/// before the line ends.
pub open spec fn last_on_line(s: Seq<char>, t: Seq<char>, k: int) -> Option<int>
    decreases s.len() - k,
{
    if k < 0 || k >= s.len() || s[k] == '\n' {
        None
    } else {
        match last_on_line(s, t, k + 1) {
            Some(j) => Some(j),
            None => if has_at(s, t, k) {
                Some(k)
            } else {
                None
            },
        }
    }
}

/// Scanning the line forward from `k`: the first position where `t` stands
/// before the line ends.
pub open spec fn first_on_line(s: Seq<char>, t: Seq<char>, k: int) -> Option<int>
    decreases s.len() - k,
{
    if k < 0 || k >= s.len() || s[k] == '\n' {
        None
    } else if has_at(s, t, k) {
        Some(k)
    } else {
        first_on_line(s, t, k + 1)
    }
}

/// Where a capture that starts at `start` ends: the position of its
/// terminator `t`.
pub open spec fn close_after(s: Seq<char>, t: Seq<char>, start: int, greedy: bool, nonempty: bool) -> Option<int> {
    let k = if nonempty { start + 1 } else { start };
    if nonempty && !(0 <= start < s.len() && s[start] != '\n') {
        None
    } else if greedy {
        last_on_line(s, t, k)
    } else {
        first_on_line(s, t, k)
    }
}

/// The bounds of the leftmost capture led by `p` and closed by `t`, searching
/// from position `i` on.
pub open spec fn capture_from(s: Seq<char>, p: Seq<char>, t: Seq<char>, greedy: bool, nonempty: bool, i: int) -> Option<(int, int)>
    decreases s.len() + 1 - i,
{
    if i < 0 || i > s.len() {
        None
    } else if has_at(s, p, i) && close_after(s, t, i + p.len(), greedy, nonempty) is Some {
        Some((i + p.len(), close_after(s, t, i + p.len(), greedy, nonempty)->0))
    } else {
        capture_from(s, p, t, greedy, nonempty, i + 1)
    }
}

/// The text of the leftmost capture led by `p` and closed by `t`.
pub open spec fn capture(s: Seq<char>, p: Seq<char>, t: Seq<char>, greedy: bool, nonempty: bool) -> Option<Seq<char>> {
    match capture_from(s, p, t, greedy, nonempty, 0) {
        Some((a, b)) => Some(s.subrange(a, b)),
        None => None,
    }
}

pub open spec fn opt_int(o: Option<usize>) -> Option<int> {
    match o {
        Some(j) => Some(j as int),
        None => None,
    }
}

/// Whether `p` stands in `s` at position `i`.
pub fn starts_at(s: &Vec<char>, p: &Vec<char>, i: usize) -> (r: bool)
    ensures
        r == has_at(s@, p@, i as int),
{
    if p.len() > s.len() || i > s.len() - p.len() {
        return false;
    }
    let mut k: usize = 0;
    while k < p.len()
        invariant
            k <= p.len(),
            i + p.len() <= s.len(),
            forall|m: int| 0 <= m < k ==> s@[i + m] == p@[m],
        decreases p.len() - k,
    {
        if s[i + k] != p[k] {
            assert(s@.subrange(i as int, i + p.len())[k as int] != p@[k as int]);
            return false;
        }
        k += 1;
    }
    assert(s@.subrange(i as int, i + p.len()) =~= p@);
    true
}

/// Whether `p` stands anywhere in `s`.
pub fn contains_chars(s: &Vec<char>, p: &Vec<char>) -> (r: bool)
    ensures
        r == contains(s@, p@),
{
    let mut i: usize = 0;
    while i <= s.len()
        invariant
            i <= s.len(),
            forall|m: int| 0 <= m < i ==> !has_at(s@, p@, m),
        decreases s.len() + 1 - i,
    {
        if starts_at(s, p, i) {
            return true;
        }
        if i == s.len() {
            return false;
        }
        i += 1;
    }
    false
}

/// The last position on the line from `k0` where `t` stands.
pub fn last_on_line_at(s: &Vec<char>, t: &Vec<char>, k0: usize) -> (r: Option<usize>)
    ensures
        opt_int(r) == last_on_line(s@, t@, k0 as int),
        r matches Some(j) ==> k0 <= j < s.len(),
{
    let mut k: usize = k0;
    let mut found: Option<usize> = None;
    while k < s.len() && s[k] != '\n'
        invariant
            k0 <= k,
            found matches Some(j) ==> k0 <= j < s.len(),
            last_on_line(s@, t@, k0 as int) == match last_on_line(s@, t@, k as int) {
                Some(j) => Some(j),
                None => opt_int(found),
            },
        decreases s.len() - k,
    {
        if starts_at(s, t, k) {
            found = Some(k);
        }
        k += 1;
    }
    found
}

/// The first position on the line from `k0` where `t` stands.
pub fn first_on_line_at(s: &Vec<char>, t: &Vec<char>, k0: usize) -> (r: Option<usize>)
    ensures
        opt_int(r) == first_on_line(s@, t@, k0 as int),
        r matches Some(j) ==> k0 <= j < s.len(),
{
    let mut k: usize = k0;
    while k < s.len() && s[k] != '\n'
        invariant
            k0 <= k,
            first_on_line(s@, t@, k0 as int) == first_on_line(s@, t@, k as int),
        decreases s.len() - k,
    {
        if starts_at(s, t, k) {
            return Some(k);
        }
        k += 1;
    }
    None
}

/// The characters of `s` from `a` up to `b`.
pub fn slice(s: &Vec<char>, a: usize, b: usize) -> (r: Vec<char>)
    requires
        a <= b <= s.len(),
    ensures
        r@ == s@.subrange(a as int, b as int),
{
    let mut r: Vec<char> = Vec::new();
    let mut k: usize = a;
    while k < b
        invariant
            a <= k <= b <= s.len(),
            r@ == s@.subrange(a as int, k as int),
        decreases b - k,
    {
        r.push(s[k]);
        k += 1;
        assert(r@ =~= s@.subrange(a as int, k as int));
    }
    r
}

/// The leftmost capture led by `p` and closed by `t`.
pub fn capture_chars(s: &Vec<char>, p: &Vec<char>, t: &Vec<char>, greedy: bool, nonempty: bool) -> (r: Option<Vec<char>>)
    ensures
        match r {
            Some(v) => capture(s@, p@, t@, greedy, nonempty) == Some(v@),
            None => capture(s@, p@, t@, greedy, nonempty) is None,
        },
{
    let mut i: usize = 0;
    while i <= s.len()
        invariant
            i <= s.len(),
            capture_from(s@, p@, t@, greedy, nonempty, 0) == capture_from(s@, p@, t@, greedy, nonempty, i as int),
        decreases s.len() + 1 - i,
    {
        if starts_at(s, p, i) {
            let start = i + p.len();
            let close = if nonempty {
                if start < s.len() && s[start] != '\n' {
                    if greedy {
                        last_on_line_at(s, t, start + 1)
                    } else {
                        first_on_line_at(s, t, start + 1)
                    }
                } else {
                    None
                }
            } else if greedy {
                last_on_line_at(s, t, start)
            } else {
                first_on_line_at(s, t, start)
            };
            assert(opt_int(close) == close_after(s@, t@, start as int, greedy, nonempty));
            if let Some(j) = close {
                return Some(slice(s, start, j));
            }
        }
        if i == s.len() {
            assert(capture_from(s@, p@, t@, greedy, nonempty, i + 1) is None);
            return None;
        }
        i += 1;
    }
    None
}

} // verus!
