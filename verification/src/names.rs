//! File names: stem, extension, numbered variants, and the search for a
//! name that is not taken yet.

use vstd::prelude::*;
use vstd::relations::injective_on;
use vstd::set_lib::lemma_int_range;
use vstd::set_lib::lemma_len_subset;
use vstd::set_lib::lemma_map_size;
use vstd::set_lib::set_int_range;
use vstd::string::StrSliceExecFns;
use crate::decimal::decimal;
use crate::decimal::lemma_decimal_injective;
use crate::text::texts;

verus! {

/// Whether the character at `i` is the dot that parts the extension of
/// `name` from its stem: the last dot of the name, and not its first
/// character.
pub open spec fn is_extension_dot(name: Seq<char>, i: int) -> bool {
    &&& 0 < i < name.len()
    &&& name[i] == '.'
    &&& forall|j: int| i < j < name.len() ==> name[j] != '.'
}

/// Whether `name` has an extension.
pub open spec fn has_extension(name: Seq<char>) -> bool {
    exists|i: int| is_extension_dot(name, i)
}

/// The length of the stem of `name`.
pub open spec fn stem_len(name: Seq<char>) -> int {
    if has_extension(name) {
        choose|i: int| is_extension_dot(name, i)
    } else {
        name.len() as int
    }
}

/// The stem of `name`: what stands before the extension dot, and the whole
/// name where there is none.
pub open spec fn stem_of(name: Seq<char>) -> Seq<char> {
    name.subrange(0, stem_len(name))
}

/// The extension of `name`: what stands after the extension dot.
pub open spec fn extension_of(name: Seq<char>) -> Option<Seq<char>> {
    if has_extension(name) {
        Some(name.subrange(stem_len(name) + 1, name.len() as int))
    } else {
        None
    }
}

/// The extension of `name` with its dot in front, and nothing where the
/// name has no extension.
pub open spec fn dotted_extension(name: Seq<char>) -> Seq<char> {
    match extension_of(name) {
        Some(extension) => seq!['.'] + extension,
        None => Seq::empty(),
    }
}

/// The variant of `name` that carries the number `n`: the stem, a space,
/// the number in parentheses, then the dotted extension.
pub open spec fn numbered(name: Seq<char>, n: nat) -> Seq<char> {
    stem_of(name) + seq![' ', '('] + decimal(n) + seq![')'] + dotted_extension(name)
}

/// The `n`-th name tried for `name`: the name itself first, then its
/// numbered variants from 1 on.
pub open spec fn candidate(name: Seq<char>, n: nat) -> Seq<char> {
    if n == 0 {
        name
    } else {
        numbered(name, n)
    }
}

/// The names that a directory listing holds.
pub open spec fn listed_names(listing: Seq<String>) -> Set<Seq<char>> {
    texts(listing).to_set()
}

/// Whether the `n`-th candidate for `name` is the first one that `occupied`
/// does not hold.
pub open spec fn is_first_free(occupied: Set<Seq<char>>, name: Seq<char>, n: nat) -> bool {
    &&& !occupied.contains(candidate(name, n))
    &&& forall|m: nat| m < n ==> occupied.contains(#[trigger] candidate(name, m))
}

/// The number of the first candidate for `name` that `occupied` does not
/// hold.
pub open spec fn first_free(occupied: Set<Seq<char>>, name: Seq<char>) -> nat {
    choose|n: nat| is_first_free(occupied, name, n)
}

/// The name under which `name` can be stored beside the names in
/// `occupied`.
pub open spec fn unique_name(occupied: Set<Seq<char>>, name: Seq<char>) -> Seq<char> {
    candidate(name, first_free(occupied, name))
}

/// Whether `unique` is the numbered variant of `name` with the smallest
/// number, from 1 on, that `occupied` does not hold.
pub open spec fn is_smallest_numbered(
    occupied: Set<Seq<char>>,
    name: Seq<char>,
    unique: Seq<char>,
) -> bool {
    exists|n: nat|
        {
            &&& n >= 1
            &&& unique == #[trigger] numbered(name, n)
            &&& !occupied.contains(unique)
            &&& forall|m: nat| 1 <= m < n ==> occupied.contains(#[trigger] numbered(name, m))
        }
}

/// A name whose extension dot stands at `i` has its first `i` characters
/// for a stem, and for an extension what follows the dot.
pub proof fn lemma_with_extension(name: Seq<char>, i: int)
    requires
        is_extension_dot(name, i),
    ensures
        stem_of(name) == name.subrange(0, i),
        extension_of(name) == Some(name.subrange(i + 1, name.len() as int)),
        dotted_extension(name) == name.subrange(i, name.len() as int),
{
    // The dot that `stem_len` chooses is the last dot, as the one at `i` is.
    assert(is_extension_dot(name, stem_len(name)));
    assert(stem_len(name) == i);
}

/// A name with no dot after its first character is its own stem and has no
/// extension.
pub proof fn lemma_without_extension(name: Seq<char>)
    requires
        forall|j: int| 0 < j < name.len() ==> name[j] != '.',
    ensures
        stem_of(name) == name,
        extension_of(name) is None,
        dotted_extension(name) == Seq::<char>::empty(),
{
}

/// A name is its stem followed by its dotted extension.
pub proof fn lemma_stem_then_extension(name: Seq<char>)
    ensures
        stem_of(name) + dotted_extension(name) == name,
        0 <= stem_len(name) <= name.len(),
{
    if has_extension(name) {
        lemma_with_extension(name, stem_len(name));
    } else {
        assert(stem_of(name) =~= name);
    }
}

/// Different numbers give different candidates.
pub proof fn lemma_candidates_distinct(name: Seq<char>, a: nat, b: nat)
    requires
        a != b,
    ensures
        candidate(name, a) != candidate(name, b),
{
    lemma_stem_then_extension(name);
    let stem = stem_of(name);
    if a == 0 || b == 0 {
        // A numbered variant is longer than the name.
        assert(candidate(name, a).len() != candidate(name, b).len());
    } else if candidate(name, a) == candidate(name, b) {
        // Between the same stem and the same extension stand the same digits.
        let x = decimal(a);
        let y = decimal(b);
        let ext = dotted_extension(name);
        assert(candidate(name, a).len() == stem.len() + 3 + x.len() + ext.len());
        assert(candidate(name, b).len() == stem.len() + 3 + y.len() + ext.len());
        assert forall|i: int| 0 <= i < x.len() implies x[i] == y[i] by {
            assert(candidate(name, a)[stem.len() + 2 + i] == x[i]);
            assert(candidate(name, b)[stem.len() + 2 + i] == y[i]);
        }
        assert(x =~= y);
        lemma_decimal_injective(a, b);
    }
}

/// Among the first candidates for `name`, one more than `occupied` has
/// names, at least one is free.
pub proof fn lemma_free_candidate_exists(occupied: Set<Seq<char>>, name: Seq<char>)
    requires
        occupied.finite(),
    ensures
        exists|n: nat| n <= occupied.len() && !occupied.contains(#[trigger] candidate(name, n)),
{
    let k = occupied.len() as int;
    if forall|n: nat| n <= k ==> occupied.contains(#[trigger] candidate(name, n)) {
        // Then the first `k + 1` candidates, all different, would be among
        // the `k` names of `occupied`.
        let numbers = set_int_range(0, k + 1);
        let f = |i: int| candidate(name, i as nat);
        let names = numbers.map(f);
        lemma_int_range(0, k + 1);
        assert(injective_on(f, numbers)) by {
            assert forall|i: int, j: int|
                numbers.contains(i) && numbers.contains(j) && #[trigger] f(i) == #[trigger] f(
                    j,
                ) implies i == j by {
                if i != j {
                    lemma_candidates_distinct(name, i as nat, j as nat);
                }
            }
        }
        lemma_map_size(numbers, names, f);
        assert(names.len() == k + 1);
        assert(names.subset_of(occupied)) by {
            assert forall|s: Seq<char>| names.contains(s) implies occupied.contains(s) by {
                let i = choose|i: int| numbers.contains(i) && f(i) == s;
                assert(occupied.contains(candidate(name, i as nat)));
            }
        }
        lemma_len_subset(names, occupied);
        assert(false);
    }
}

/// Beside finitely many names there is a first free candidate, and its
/// number is at most the number of names.
pub proof fn lemma_first_free(occupied: Set<Seq<char>>, name: Seq<char>)
    requires
        occupied.finite(),
    ensures
        is_first_free(occupied, name, first_free(occupied, name)),
        first_free(occupied, name) <= occupied.len(),
{
    lemma_free_candidate_exists(occupied, name);
    let bound = choose|n: nat|
        n <= occupied.len() && !occupied.contains(#[trigger] candidate(name, n));
    lemma_least_free(occupied, name, bound, bound);
    let least = choose|n: nat| n <= bound && is_first_free(occupied, name, n);
    lemma_first_free_unique(occupied, name, least);
}

/// Below a free candidate there is a first free one.
proof fn lemma_least_free(occupied: Set<Seq<char>>, name: Seq<char>, free: nat, upto: nat)
    requires
        !occupied.contains(candidate(name, free)),
        upto <= free,
        forall|m: nat| upto <= m < free ==> occupied.contains(#[trigger] candidate(name, m)),
    ensures
        exists|n: nat| n <= free && is_first_free(occupied, name, n),
    decreases upto,
{
    if upto == 0 {
        assert(is_first_free(occupied, name, free));
    } else {
        let below = (upto - 1) as nat;
        if occupied.contains(candidate(name, below)) {
            lemma_least_free(occupied, name, free, below);
        } else {
            lemma_least_free(occupied, name, below, below);
        }
    }
}

/// The first free candidate is the only one.
pub proof fn lemma_first_free_unique(occupied: Set<Seq<char>>, name: Seq<char>, n: nat)
    requires
        is_first_free(occupied, name, n),
    ensures
        first_free(occupied, name) == n,
{
    // Of two first free candidates, the later one would have the earlier
    // one before it, taken.
    let chosen = first_free(occupied, name);
    assert(is_first_free(occupied, name, chosen));
    if chosen < n {
        assert(occupied.contains(candidate(name, chosen)));
    } else if n < chosen {
        assert(occupied.contains(candidate(name, n)));
    }
}

/// A listing holds finitely many names, no more than it has entries.
pub proof fn lemma_listed_names_finite(listing: Seq<String>)
    ensures
        listed_names(listing).finite(),
        listed_names(listing).len() <= listing.len(),
{
    texts(listing).lemma_cardinality_of_set();
}

/// A name that is taken is stored under its numbered variant with the
/// smallest number, from 1 on, that is not taken.
pub proof fn lemma_taken_name_gets_smallest_number(occupied: Set<Seq<char>>, name: Seq<char>)
    requires
        occupied.finite(),
        occupied.contains(name),
    ensures
        is_smallest_numbered(occupied, name, unique_name(occupied, name)),
{
    lemma_first_free(occupied, name);
    let n = first_free(occupied, name);
    assert(n >= 1) by {
        assert(candidate(name, 0) == name);
    }
    assert forall|m: nat| 1 <= m < n implies occupied.contains(#[trigger] numbered(name, m)) by {
        assert(occupied.contains(candidate(name, m)));
    }
}

/// A name that is not taken is kept as it is.
pub proof fn lemma_free_name_is_kept(occupied: Set<Seq<char>>, name: Seq<char>)
    requires
        !occupied.contains(name),
    ensures
        unique_name(occupied, name) == name,
{
    assert(is_first_free(occupied, name, 0));
    lemma_first_free_unique(occupied, name, 0);
}

/// Splits a file name into its stem and its extension.
pub fn split_name(name: &str) -> (parts: (String, Option<String>))
    ensures
        parts.0@ == stem_of(name@),
        parts.1 matches Some(e) ==> extension_of(name@) == Some(e@),
        parts.1 is None ==> extension_of(name@) is None,
{
    let len = name.unicode_len();
    let mut last: Option<usize> = None;
    let mut idx: usize = 0;
    for c in it: name.chars()
        invariant
            len == name@.len(),
            it.seq() == name@,
            idx == it.index(),
            last matches Some(d) ==> d < idx && name@[d as int] == '.' && forall|j: int|
                d < j < idx ==> name@[j] != '.',
            last is None ==> forall|j: int| 0 <= j < idx ==> name@[j] != '.',
    {
        if c == '.' {
            last = Some(idx);
        }
        idx = idx + 1;
    }
    match last {
        Some(d) => {
            if d > 0 {
                proof {
                    lemma_with_extension(name@, d as int);
                }
                let stem = name.substring_char(0, d);
                let extension = name.substring_char(d + 1, len);
                (stem.to_owned(), Some(extension.to_owned()))
            } else {
                proof {
                    lemma_without_extension(name@);
                }
                (name.to_owned(), None)
            }
        },
        None => {
            proof {
                lemma_without_extension(name@);
            }
            (name.to_owned(), None)
        },
    }
}

} // verus!
