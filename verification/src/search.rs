//! Searching a slice for a contiguous run of elements.

use vstd::prelude::*;
use vstd::std_specs::cmp::PartialEqSpec;

verus! {

/// `needle` lies in `haystack` at offset `at`, element for element equal
/// under the element type's own `==`.
pub open spec fn window_matches<T: PartialEq>(haystack: Seq<T>, needle: Seq<T>, at: int) -> bool {
    &&& 0 <= at
    &&& at + needle.len() <= haystack.len()
    &&& forall|k: int| 0 <= k < needle.len() ==> haystack[at + k].eq_spec(&#[trigger] needle[k])
}

/// Some window of `haystack` matches `needle`.
pub open spec fn has_window<T: PartialEq>(haystack: Seq<T>, needle: Seq<T>) -> bool {
    exists|at: int| window_matches(haystack, needle, at)
}

/// `needle` is the contiguous part of `haystack` that starts at `at`.
pub open spec fn occurs_at<T>(haystack: Seq<T>, needle: Seq<T>, at: int) -> bool {
    &&& 0 <= at
    &&& at + needle.len() <= haystack.len()
    &&& haystack.subrange(at, at + needle.len()) == needle
}

/// `needle` is a contiguous part of `haystack`. The empty sequence is a part
/// of every sequence.
pub open spec fn contains_run<T>(haystack: Seq<T>, needle: Seq<T>) -> bool {
    exists|at: int| occurs_at(haystack, needle, at)
}

/// Compares the window of `haystack` at `at` with `needle`.
fn window_eq<T: PartialEq>(haystack: &[T], needle: &[T], at: usize) -> (same: bool)
    requires
        at + needle@.len() <= haystack@.len(),
    ensures
        T::obeys_eq_spec() ==> same == window_matches(haystack@, needle@, at as int),
{
    let len: usize = haystack.len();
    let mut k: usize = 0;
    while k < needle.len()
        invariant
            k <= needle@.len(),
            at + needle@.len() <= haystack@.len(),
            haystack@.len() == len,
            T::obeys_eq_spec() ==> forall|j: int|
                0 <= j < k ==> haystack@[at + j].eq_spec(&#[trigger] needle@[j]),
        decreases needle@.len() - k,
    {
        if !(haystack[at + k] == needle[k]) {
            return false;
        }
        k += 1;
    }
    true
}

/// Tells whether `needle` occurs in `haystack` as a contiguous run.
///
/// An empty `needle` occurs in every `haystack`. The answer is stated for
/// element types whose `==` follows its specification; for any other type
/// nothing is promised beyond termination.
pub fn is_sub<T: PartialEq>(haystack: &[T], needle: &[T]) -> (found: bool)
    ensures
        T::obeys_eq_spec() ==> found == has_window(haystack@, needle@),
{
    if needle.len() > haystack.len() {
        return false;
    }
    let last: usize = haystack.len() - needle.len();
    let mut at: usize = 0;
    loop
        invariant
            at <= last,
            last == haystack@.len() - needle@.len(),
            T::obeys_eq_spec() ==> forall|i: int|
                0 <= i < at ==> !window_matches(haystack@, needle@, i),
        decreases last - at,
    {
        if window_eq(haystack, needle, at) {
            return true;
        }
        if at == last {
            return false;
        }
        at += 1;
    }
}

/// Where `==` of the element type is plain equality, a matching window is an
/// occurrence and the other way round.
pub proof fn lemma_window_is_occurrence<T: PartialEq>(haystack: Seq<T>, needle: Seq<T>, at: int)
    requires
        forall|x: T, y: T| x.eq_spec(&y) <==> x == y,
    ensures
        window_matches(haystack, needle, at) <==> occurs_at(haystack, needle, at),
{
    if window_matches(haystack, needle, at) {
        assert(haystack.subrange(at, at + needle.len()) =~= needle);
    }
    if occurs_at(haystack, needle, at) {
        let part = haystack.subrange(at, at + needle.len());
        assert forall|k: int| 0 <= k < needle.len() implies haystack[at + k].eq_spec(
            &#[trigger] needle[k],
        ) by {
            assert(part[k] == haystack[at + k]);
        }
    }
}

} // verus!
