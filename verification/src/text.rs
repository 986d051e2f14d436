//! Small helpers on strings.

use vstd::prelude::*;
use vstd::std_specs::iter::IteratorSpec;

verus! {

/// The characters of each string of a list.
pub open spec fn texts(strings: Seq<String>) -> Seq<Seq<char>> {
    strings.map_values(|s: String| s@)
}

/// The characters of a string that may be missing.
pub open spec fn optional_text(string: Option<String>) -> Option<Seq<char>> {
    match string {
        Some(s) => Some(s@),
        None => None,
    }
}

/// Whether two string slices hold the same characters.
pub fn same_text(a: &str, b: &str) -> (r: bool)
    ensures
        r == (a@ == b@),
{
    broadcast use vstd::string::group_string_axioms;

    let mut left = a.chars();
    let mut right = b.chars();
    let ghost mut n: int = 0;
    assert(a@.subrange(0, a@.len() as int) =~= a@);
    assert(b@.subrange(0, b@.len() as int) =~= b@);
    loop
        invariant
            0 <= n <= a@.len(),
            n <= b@.len(),
            left.obeys_prophetic_iter_laws(),
            right.obeys_prophetic_iter_laws(),
            left.remaining() == a@.subrange(n, a@.len() as int),
            right.remaining() == b@.subrange(n, b@.len() as int),
            a@.subrange(0, n) == b@.subrange(0, n),
        decreases a@.len() - n,
    {
        let x = left.next();
        let y = right.next();
        match (x, y) {
            (None, None) => {
                assert(a@ =~= a@.subrange(0, n));
                assert(b@ =~= b@.subrange(0, n));
                return true;
            },
            (Some(c), Some(d)) => {
                if c != d {
                    assert(a@[n] == c);
                    assert(b@[n] == d);
                    return false;
                }
                proof {
                    assert(a@.subrange(n, a@.len() as int).drop_first() =~= a@.subrange(
                        n + 1,
                        a@.len() as int,
                    ));
                    assert(b@.subrange(n, b@.len() as int).drop_first() =~= b@.subrange(
                        n + 1,
                        b@.len() as int,
                    ));
                    assert(a@.subrange(0, n + 1) =~= a@.subrange(0, n).push(c));
                    assert(b@.subrange(0, n + 1) =~= b@.subrange(0, n).push(d));
                    n = n + 1;
                }
            },
            _ => {
                return false;
            },
        }
    }
}

} // verus!
