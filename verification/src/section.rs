//! The section table locator: the first table that stands inside the target
//! section of a document.
//!
//! A section is bounded by two marker strings that occur in text runs at the
//! top level of the document. Reading the nodes in order, a text run that
//! holds the end marker leaves the section, and a text run that holds the
//! start marker (and not the end marker) enters it.

use vstd::prelude::*;
use crate::markup::{Markup, WikiNode, nodes_view};
use crate::text::{contains_text, has_substring};

verus! {

/// Whether `node` is a text run that enters the section.
pub open spec fn opens_section(node: Markup, start: Seq<char>, end: Seq<char>) -> bool {
    node matches Markup::Text(value) && has_substring(value, start) && !has_substring(value, end)
}

/// Whether `node` is a text run that leaves the section.
pub open spec fn closes_section(node: Markup, end: Seq<char>) -> bool {
    node matches Markup::Text(value) && has_substring(value, end)
}

/// Whether a reader who has passed the first `upto` nodes stands inside the
/// section: some earlier text run entered it and none after that one left it.
pub open spec fn inside_section(
    nodes: Seq<Markup>,
    upto: int,
    start: Seq<char>,
    end: Seq<char>,
) -> bool {
    exists|j: int|
        0 <= j < upto && j < nodes.len() && #[trigger] opens_section(nodes[j], start, end)
            && stays_open(nodes, j, upto, end)
}

/// No node strictly between positions `from` and `upto` leaves the section.
pub open spec fn stays_open(nodes: Seq<Markup>, from: int, upto: int, end: Seq<char>) -> bool {
    forall|k: int| from < k < upto && k < nodes.len() ==> !#[trigger] closes_section(nodes[k], end)
}

/// The state of the two-state scan after the first `upto` nodes: `true` for
/// inside, `false` for outside. The scan starts outside.
pub open spec fn scan_state(nodes: Seq<Markup>, upto: int, start: Seq<char>, end: Seq<char>) -> bool
    decreases upto,
{
    if upto <= 0 || upto > nodes.len() {
        false
    } else {
        next_state(scan_state(nodes, upto - 1, start, end), nodes[upto - 1], start, end)
    }
}

/// One transition of the scan.
pub open spec fn next_state(inside: bool, node: Markup, start: Seq<char>, end: Seq<char>) -> bool {
    if closes_section(node, end) {
        false
    } else if opens_section(node, start, end) {
        true
    } else {
        inside
    }
}

/// Whether position `at` holds a table that stands inside the section.
pub open spec fn is_section_table(nodes: Seq<Markup>, at: int, start: Seq<char>, end: Seq<char>) -> bool {
    &&& 0 <= at < nodes.len()
    &&& nodes[at] is Table
    &&& inside_section(nodes, at, start, end)
}

/// Whether position `at` holds the first table inside the section.
pub open spec fn is_located_table(nodes: Seq<Markup>, at: int, start: Seq<char>, end: Seq<char>) -> bool {
    &&& is_section_table(nodes, at, start, end)
    &&& forall|m: int| 0 <= m < at ==> !is_section_table(nodes, m, start, end)
}

/// The position of the located table, if the document has one.
pub open spec fn located_table(nodes: Seq<Markup>, start: Seq<char>, end: Seq<char>) -> Option<int> {
    if exists|at: int| is_located_table(nodes, at, start, end) {
        Some(choose|at: int| is_located_table(nodes, at, start, end))
    } else {
        None
    }
}

/// The rows of the located table; none where the document has no such table.
pub open spec fn located_rows(nodes: Seq<Markup>, start: Seq<char>, end: Seq<char>) -> Seq<Seq<Seq<Markup>>> {
    match located_table(nodes, start, end) {
        Some(at) => nodes[at]->Table_0,
        None => Seq::empty(),
    }
}

/// The two-state scan computes exactly the section membership: after any
/// prefix of the document the scan is inside if and only if the last text run
/// that entered the section has no later text run that left it.
pub proof fn lemma_scan_state(nodes: Seq<Markup>, upto: int, start: Seq<char>, end: Seq<char>)
    requires
        0 <= upto <= nodes.len(),
    ensures
        scan_state(nodes, upto, start, end) == inside_section(nodes, upto, start, end),
    decreases upto,
{
    if upto > 0 {
        lemma_scan_state(nodes, upto - 1, start, end);
        let last = nodes[upto - 1];
        if closes_section(last, end) {
            assert forall|j: int|
                0 <= j < upto && j < nodes.len() && #[trigger] opens_section(
                    nodes[j],
                    start,
                    end,
                ) implies !stays_open(nodes, j, upto, end) by {
                assert(closes_section(nodes[upto - 1], end));
            }
        } else if opens_section(last, start, end) {
            assert(opens_section(nodes[upto - 1], start, end));
            assert(stays_open(nodes, upto - 1, upto, end));
        } else {
            if inside_section(nodes, upto - 1, start, end) {
                let j = choose|j: int|
                    0 <= j < upto - 1 && j < nodes.len() && #[trigger] opens_section(
                        nodes[j],
                        start,
                        end,
                    ) && stays_open(nodes, j, upto - 1, end);
                assert(stays_open(nodes, j, upto, end));
            }
            if inside_section(nodes, upto, start, end) {
                let j = choose|j: int|
                    0 <= j < upto && j < nodes.len() && #[trigger] opens_section(
                        nodes[j],
                        start,
                        end,
                    ) && stays_open(nodes, j, upto, end);
                assert(stays_open(nodes, j, upto - 1, end));
            }
        }
    }
}

/// A position that holds the first table inside the section is the located
/// table: there is no other such position.
pub proof fn lemma_located_is_unique(nodes: Seq<Markup>, at: int, start: Seq<char>, end: Seq<char>)
    requires
        is_located_table(nodes, at, start, end),
    ensures
        located_table(nodes, start, end) == Some(at),
{
    let chosen = choose|c: int| is_located_table(nodes, c, start, end);
    if chosen < at {
        assert(!is_section_table(nodes, chosen, start, end));
    } else if at < chosen {
        assert(!is_section_table(nodes, at, start, end));
    }
}

/// Where some table among the first `upto` nodes stands inside the section,
/// one of them is the first.
proof fn lemma_first_section_table(nodes: Seq<Markup>, upto: int, start: Seq<char>, end: Seq<char>)
    requires
        exists|m: int| 0 <= m < upto && is_section_table(nodes, m, start, end),
    ensures
        exists|at: int| 0 <= at < upto && is_located_table(nodes, at, start, end),
    decreases upto,
{
    if exists|m: int| 0 <= m < upto - 1 && is_section_table(nodes, m, start, end) {
        lemma_first_section_table(nodes, upto - 1, start, end);
    } else {
        assert(is_located_table(nodes, upto - 1, start, end));
    }
}

/// The located table is the first table inside the section, and a document
/// has none exactly where no table of it stands inside the section.
pub proof fn lemma_located_table(nodes: Seq<Markup>, start: Seq<char>, end: Seq<char>)
    ensures
        match located_table(nodes, start, end) {
            Some(at) => is_located_table(nodes, at, start, end),
            None => forall|at: int| !is_section_table(nodes, at, start, end),
        },
{
    if located_table(nodes, start, end) is None {
        assert forall|at: int| !is_section_table(nodes, at, start, end) by {
            if is_section_table(nodes, at, start, end) {
                lemma_first_section_table(nodes, at + 1, start, end);
            }
        }
    }
}

/// A document in which no text run holds the start marker has no located
/// table, whatever tables it holds.
pub proof fn lemma_no_start_marker_no_table(nodes: Seq<Markup>, start: Seq<char>, end: Seq<char>)
    requires
        forall|j: int|
            0 <= j < nodes.len() ==> !(#[trigger] nodes[j] matches Markup::Text(value)
                && has_substring(value, start)),
    ensures
        located_table(nodes, start, end) is None,
        located_rows(nodes, start, end) == Seq::<Seq<Seq<Markup>>>::empty(),
{
    assert forall|at: int| !is_located_table(nodes, at, start, end) by {
        if is_section_table(nodes, at, start, end) {
            let j = choose|j: int|
                0 <= j < at && j < nodes.len() && #[trigger] opens_section(nodes[j], start, end)
                    && stays_open(nodes, j, at, end);
            assert(nodes[j] matches Markup::Text(value) && has_substring(value, start));
        }
    }
}

/// A table is eligible only behind the last text run that entered the
/// section with no end marker after it: where a text run at `close` leaves
/// the section and nothing between it and a table at `at` enters it again,
/// that table is not inside the section, whatever stood before `close`.
pub proof fn lemma_closed_section_excludes(
    nodes: Seq<Markup>,
    close: int,
    at: int,
    start: Seq<char>,
    end: Seq<char>,
)
    requires
        0 <= close < at <= nodes.len(),
        closes_section(nodes[close], end),
        forall|j: int| close < j < at ==> !#[trigger] opens_section(nodes[j], start, end),
    ensures
        !inside_section(nodes, at, start, end),
        !is_section_table(nodes, at, start, end),
{
    assert forall|j: int|
        0 <= j < at && j < nodes.len() && #[trigger] opens_section(
            nodes[j],
            start,
            end,
        ) implies !stays_open(nodes, j, at, end) by {
        assert(j < close);
        assert(closes_section(nodes[close], end));
    }
}

/// Finds the first table that stands inside the section bounded by the two
/// markers. Returns its position among `nodes`, or `None` where the section
/// is never entered or holds no table.
pub fn locate_section_table(nodes: &Vec<WikiNode>, start: &str, end: &str) -> (found: Option<usize>)
    ensures
        match found {
            Some(at) => located_table(nodes_view(nodes@), start@, end@) == Some(at as int)
                && is_located_table(nodes_view(nodes@), at as int, start@, end@),
            None => located_table(nodes_view(nodes@), start@, end@) is None && forall|at: int|
                !is_section_table(nodes_view(nodes@), at, start@, end@),
        },
        found matches Some(at) ==> at < nodes.len() && nodes[at as int] is Table,
{
    let ghost all = nodes_view(nodes@);
    let mut inside = false;
    let mut i: usize = 0;
    while i < nodes.len()
        invariant
            i <= nodes.len(),
            all == nodes_view(nodes@),
            inside == scan_state(all, i as int, start@, end@),
            forall|m: int| 0 <= m < i ==> !is_section_table(all, m, start@, end@),
        decreases nodes.len() - i,
    {
        proof {
            lemma_scan_state(all, i as int, start@, end@);
        }
        match &nodes[i] {
            WikiNode::Text { value } => {
                if contains_text(value.as_str(), start) {
                    inside = true;
                }
                if contains_text(value.as_str(), end) {
                    inside = false;
                }
            },
            WikiNode::Table { .. } => {
                if inside {
                    proof {
                        assert(is_located_table(all, i as int, start@, end@));
                        lemma_located_is_unique(all, i as int, start@, end@);
                    }
                    return Some(i);
                }
            },
            _ => {},
        }
        i += 1;
    }
    None
}

} // verus!
