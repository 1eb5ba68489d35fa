//! Text operations that extraction relies on, with their meaning over
//! sequences of characters.

use vstd::prelude::*;

verus! {

/// Whether `pattern` occurs in `text` as a contiguous run of characters.
pub open spec fn has_substring(text: Seq<char>, pattern: Seq<char>) -> bool {
    exists|at: int| occurs_at(text, pattern, at)
}

/// Whether `pattern` occurs in `text` starting at position `at`.
pub open spec fn occurs_at(text: Seq<char>, pattern: Seq<char>, at: int) -> bool {
    &&& 0 <= at
    &&& at + pattern.len() <= text.len()
    &&& text.subrange(at, at + pattern.len()) == pattern
}

/// The character sequences of a sequence of string slices.
pub open spec fn runs_view(runs: Seq<&str>) -> Seq<Seq<char>> {
    Seq::new(runs.len(), |i: int| runs[i]@)
}

/// Calls `str::contains` of the standard library with a string pattern. The
/// contract restates its documentation: the result tells whether the pattern
/// matches a sub-slice of the text.
#[verifier::external_body]
pub(crate) fn contains_text(text: &str, pattern: &str) -> (found: bool)
    ensures
        found == has_substring(text@, pattern@),
{
    text.contains(pattern)
}

/// Calls the standard library's equality of string slices, which holds when
/// both have the same characters.
#[verifier::external_body]
pub(crate) fn same_text(left: &str, right: &str) -> (same: bool)
    ensures
        same == (left@ == right@),
{
    left == right
}

/// The text in which every occurrence of `from` is replaced by `to`. The
/// occurrences are taken from left to right, each beginning behind the end
/// of the one before it.
pub open spec fn replaced(text: Seq<char>, from: Seq<char>, to: Seq<char>) -> Seq<char>
    decreases text.len(),
{
    if from.len() == 0 || text.len() < from.len() {
        text
    } else if text.subrange(0, from.len() as int) == from {
        to + replaced(text.subrange(from.len() as int, text.len() as int), from, to)
    } else {
        seq![text[0]] + replaced(text.subrange(1, text.len() as int), from, to)
    }
}

/// Calls `str::replace` of the standard library with a string pattern, which
/// replaces all matches of the pattern; its matches do not overlap and are
/// found from left to right. The empty pattern, which matches between all
/// characters, is left out.
#[verifier::external_body]
pub(crate) fn replace_text(text: &str, from: &str, to: &str) -> (result: String)
    requires
        from@.len() > 0,
    ensures
        result@ == replaced(text@, from@, to@),
{
    text.replace(from, to)
}

/// Joins string slices into one `String`, in order and without separators.
pub fn concat_runs(runs: &Vec<&str>) -> (joined: String)
    ensures
        joined@ == runs_view(runs@).flatten(),
{
    let mut joined = String::new();
    let mut i: usize = 0;
    while i < runs.len()
        invariant
            i <= runs.len(),
            joined@ == runs_view(runs@).take(i as int).flatten(),
        decreases runs.len() - i,
    {
        proof {
            let all = runs_view(runs@);
            assert(all.take(i + 1) =~= all.take(i as int).push(runs[i as int]@));
            all.take(i as int).lemma_flatten_push(runs[i as int]@);
        }
        joined.append(runs[i]);
        i += 1;
    }
    proof {
        assert(runs_view(runs@).take(runs.len() as int) =~= runs_view(runs@));
    }
    joined
}

} // verus!
