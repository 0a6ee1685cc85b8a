//! Telling from the output of a pull whether anything changed.

use vstd::prelude::*;
use vstd::utf8::*;

use crate::search::contains_run;
use crate::search::is_sub;
use crate::search::lemma_window_is_occurrence;
use crate::search::occurs_at;
use crate::search::window_matches;
use crate::text::lemma_ascii_search_in_bytes;

verus! {

/// What the source-control tool writes when a pull fetched nothing new.
pub const UP_TO_DATE_MARKER: &'static str = "Already up to date.";

/// The marker as a character sequence.
pub open spec fn marker() -> Seq<char> {
    UP_TO_DATE_MARKER@
}

/// The output of a pull says that the source was already current: the
/// marker occurs in it, whatever stands before and after.
pub open spec fn already_current(output: Seq<char>) -> bool {
    contains_run(output, marker())
}

/// The marker is plain ASCII, nineteen characters long.
pub proof fn lemma_marker_is_ascii()
    ensures
        marker().len() == 19,
        is_ascii_chars(marker()),
{
    reveal_strlit("Already up to date.");
}

/// Tells whether `output`, the text a pull wrote, says that the source was
/// already current.
pub fn is_already_current(output: &str) -> (current: bool)
    ensures
        current == already_current(output@),
{
    let haystack = output.as_bytes();
    let needle = UP_TO_DATE_MARKER.as_bytes();
    let current = is_sub(haystack, needle);
    proof {
        assert forall|at: int|
            window_matches(haystack@, needle@, at) <==> occurs_at(haystack@, needle@, at) by {
            lemma_window_is_occurrence(haystack@, needle@, at);
        }
        lemma_marker_is_ascii();
        lemma_ascii_search_in_bytes(output@, marker());
    }
    current
}

} // verus!
