//! Snapshots of promotional codes: extraction from a document and the
//! difference between two snapshots.

use vstd::prelude::*;
use crate::markup::{Markup, WikiNode, Row, cells_view, nodes_view, rows_view};
use crate::record::{
    PromotionalCode, PromotionalCodeView, record_of, row_texts, texts_view,
};
use crate::cell::get_cell_content_as_string;
use crate::resource::{WikiResource, news_of};
use crate::section::{located_rows, locate_section_table};

verus! {

/// The promotional codes of one extraction pass, in the order of the table's
/// rows.
#[derive(Debug)]
pub struct PromotionalCodes {
    pub codes: Vec<PromotionalCode>,
}

/// The models of a sequence of records, in order.
pub open spec fn records_view(records: Seq<PromotionalCode>) -> Seq<PromotionalCodeView> {
    Seq::new(records.len(), |i: int| records[i]@)
}

impl View for PromotionalCodes {
    type V = Seq<PromotionalCodeView>;

    open spec fn view(&self) -> Seq<PromotionalCodeView> {
        records_view(self.codes@)
    }
}

/// The marker that opens the section of the codes that are available.
pub open spec fn available_marker() -> Seq<char> {
    "== Available =="@
}

/// The marker that closes it: the heading of the codes that have expired.
pub open spec fn expired_marker() -> Seq<char> {
    "== Expired =="@
}

/// The title of the page that lists the codes.
pub open spec fn codes_title() -> Seq<char> {
    "Promotional_Codes"@
}

/// The records of a table: its first row names the columns, and each row
/// after it yields one record, in order. A table without rows yields none.
pub open spec fn table_records(rows: Seq<Seq<Seq<Markup>>>) -> Seq<PromotionalCodeView> {
    if rows.len() == 0 {
        Seq::empty()
    } else {
        Seq::new(
            (rows.len() - 1) as nat,
            |i: int| record_of(row_texts(rows[0]), row_texts(rows[i + 1])),
        )
    }
}

/// The snapshot that a document holds: the records of the first table inside
/// the section of available codes.
pub open spec fn extracted_codes(nodes: Seq<Markup>) -> Seq<PromotionalCodeView> {
    table_records(located_rows(nodes, available_marker(), expired_marker()))
}

/// The test that keeps what `previous` does not hold.
pub open spec fn is_new<R>(previous: Seq<R>) -> spec_fn(R) -> bool {
    |record: R| !previous.contains(record)
}

/// The records of `current` that equal no record of `previous`, in the order
/// of `current`.
pub open spec fn added_records<R>(current: Seq<R>, previous: Seq<R>) -> Seq<R> {
    current.filter(is_new(previous))
}

/// A filter that no element passes leaves nothing.
proof fn lemma_filter_none<R>(records: Seq<R>, keep: spec_fn(R) -> bool)
    requires
        forall|i: int| 0 <= i < records.len() ==> !keep(#[trigger] records[i]),
    ensures
        records.filter(keep) == Seq::<R>::empty(),
    decreases records.len(),
{
    reveal(Seq::filter);
    if records.len() > 0 {
        lemma_filter_none(records.drop_last(), keep);
    }
}

/// A filter that every element passes leaves everything.
proof fn lemma_filter_all<R>(records: Seq<R>, keep: spec_fn(R) -> bool)
    requires
        forall|i: int| 0 <= i < records.len() ==> keep(#[trigger] records[i]),
    ensures
        records.filter(keep) == records,
    decreases records.len(),
{
    reveal(Seq::filter);
    if records.len() > 0 {
        lemma_filter_all(records.drop_last(), keep);
        assert(records.drop_last().push(records.last()) =~= records);
    }
}

/// The difference of a snapshot against itself is empty.
pub proof fn lemma_difference_with_self<R>(snapshot: Seq<R>)
    ensures
        added_records(snapshot, snapshot) == Seq::<R>::empty(),
{
    assert forall|i: int| 0 <= i < snapshot.len() implies !is_new(snapshot)(
        #[trigger] snapshot[i],
    ) by {
        assert(snapshot.contains(snapshot[i]));
    }
    lemma_filter_none(snapshot, is_new(snapshot));
}

/// The difference of a snapshot against the empty snapshot is the snapshot
/// itself.
pub proof fn lemma_difference_with_nothing<R>(snapshot: Seq<R>)
    ensures
        added_records(snapshot, Seq::<R>::empty()) == snapshot,
{
    lemma_filter_all(snapshot, is_new(Seq::<R>::empty()));
}

/// The difference holds exactly the records of the current snapshot that the
/// previous one does not hold.
pub proof fn lemma_difference_members<R>(current: Seq<R>, previous: Seq<R>, record: R)
    ensures
        added_records(current, previous).contains(record) <==> current.contains(record)
            && !previous.contains(record),
    decreases current.len(),
{
    reveal(Seq::filter);
    if current.len() > 0 {
        let rest = current.drop_last();
        lemma_difference_members(rest, previous, record);
        let added = added_records(current, previous);
        let added_rest = added_records(rest, previous);
        if current.contains(record) && !previous.contains(record) {
            let i = choose|i: int| 0 <= i < current.len() && current[i] == record;
            if i < current.len() - 1 {
                assert(rest[i] == record);
                let j = choose|j: int| 0 <= j < added_rest.len() && added_rest[j] == record;
                assert(added[j] == record);
            } else {
                assert(added.last() == record);
            }
        }
        if added.contains(record) {
            let j = choose|j: int| 0 <= j < added.len() && added[j] == record;
            if j < added_rest.len() {
                assert(added_rest[j] == record);
                let i = choose|i: int| 0 <= i < rest.len() && rest[i] == record;
                assert(current[i] == record);
            } else {
                assert(current.last() == record);
            }
        }
    }
}

/// A document in which no text run holds the marker of the available
/// section yields the empty snapshot.
pub proof fn lemma_no_section_no_codes(nodes: Seq<Markup>)
    requires
        forall|j: int|
            0 <= j < nodes.len() ==> !(#[trigger] nodes[j] matches Markup::Text(value)
                && crate::text::has_substring(value, available_marker())),
    ensures
        extracted_codes(nodes) == Seq::<PromotionalCodeView>::empty(),
{
    crate::section::lemma_no_start_marker_no_table(nodes, available_marker(), expired_marker());
}

/// A pass over a document that has not changed since the previous pass has
/// nothing to report.
pub proof fn lemma_unchanged_snapshot_is_silent(snapshot: Seq<PromotionalCodeView>)
    ensures
        news_of::<PromotionalCodes>(Some(snapshot), snapshot) is None,
{
    lemma_difference_with_self(snapshot);
}

/// A first pass, with no previous snapshot, reports all of a snapshot that
/// holds anything.
pub proof fn lemma_first_snapshot_is_news(snapshot: Seq<PromotionalCodeView>)
    requires
        snapshot.len() > 0,
    ensures
        news_of::<PromotionalCodes>(None, snapshot) == Some(snapshot),
{
}

/// The flattened text of each cell of a row, in column order.
pub fn row_cell_texts(row: &Row) -> (texts: Vec<String>)
    ensures
        texts_view(texts@) == row_texts(cells_view(row.cells@)),
{
    let mut texts: Vec<String> = Vec::new();
    let mut i: usize = 0;
    while i < row.cells.len()
        invariant
            i <= row.cells.len(),
            texts.len() == i,
            forall|k: int|
                0 <= k < i ==> (#[trigger] texts[k])@ == row_texts(cells_view(row.cells@))[k],
        decreases row.cells.len() - i,
    {
        texts.push(get_cell_content_as_string(&row.cells[i].content));
        i += 1;
    }
    assert(texts_view(texts@) =~= row_texts(cells_view(row.cells@)));
    texts
}

/// Whether `records` holds a record equal to `record`.
fn holds_record(records: &Vec<PromotionalCode>, record: &PromotionalCode) -> (held: bool)
    ensures
        held == records_view(records@).contains(record@),
{
    let mut i: usize = 0;
    while i < records.len()
        invariant
            i <= records.len(),
            forall|k: int| 0 <= k < i ==> records_view(records@)[k] != record@,
        decreases records.len() - i,
    {
        if records[i].eq(record) {
            assert(records_view(records@)[i as int] == record@);
            return true;
        }
        i += 1;
    }
    false
}

impl PromotionalCodes {
    /// Maps a table to its records: the first row names the columns, every
    /// later row yields one record.
    pub fn from_table(rows: &Vec<Row>) -> (snapshot: PromotionalCodes)
        ensures
            snapshot@ == table_records(rows_view(rows@)),
    {
        let mut codes: Vec<PromotionalCode> = Vec::new();
        if rows.len() == 0 {
            assert(records_view(codes@) =~= table_records(rows_view(rows@)));
            return PromotionalCodes { codes };
        }
        let headers = row_cell_texts(&rows[0]);
        let mut i: usize = 1;
        while i < rows.len()
            invariant
                1 <= i <= rows.len(),
                codes.len() == i - 1,
                texts_view(headers@) == row_texts(cells_view(rows[0].cells@)),
                forall|k: int|
                    0 <= k < i - 1 ==> (#[trigger] codes[k])@ == table_records(rows_view(rows@))[k],
            decreases rows.len() - i,
        {
            let record = PromotionalCode::from_row(&headers, &rows[i]);
            codes.push(record);
            i += 1;
        }
        assert(records_view(codes@) =~= table_records(rows_view(rows@)));
        PromotionalCodes { codes }
    }
}

impl Clone for PromotionalCodes {
    fn clone(&self) -> (copy: PromotionalCodes)
        ensures
            copy@ == self@,
    {
        let mut codes: Vec<PromotionalCode> = Vec::new();
        let mut i: usize = 0;
        while i < self.codes.len()
            invariant
                i <= self.codes.len(),
                codes.len() == i,
                forall|k: int| 0 <= k < i ==> (#[trigger] codes[k])@ == self.codes[k]@,
            decreases self.codes.len() - i,
        {
            codes.push(self.codes[i].clone());
            i += 1;
        }
        assert(records_view(codes@) =~= records_view(self.codes@));
        PromotionalCodes { codes }
    }
}

impl WikiResource for PromotionalCodes {
    open spec fn extracted(nodes: Seq<Markup>) -> Seq<PromotionalCodeView> {
        extracted_codes(nodes)
    }

    open spec fn title() -> Seq<char> {
        codes_title()
    }

    open spec fn added(
        current: Seq<PromotionalCodeView>,
        previous: Seq<PromotionalCodeView>,
    ) -> Seq<PromotionalCodeView> {
        added_records(current, previous)
    }

    open spec fn is_empty(snapshot: Seq<PromotionalCodeView>) -> bool {
        snapshot.len() == 0
    }

    proof fn lemma_clone_keeps_view(resource: PromotionalCodes, copy: PromotionalCodes) {
    }

    fn from(nodes: &Vec<WikiNode>) -> (resource: PromotionalCodes) {
        match locate_section_table(nodes, "== Available ==", "== Expired ==") {
            Some(at) => {
                match &nodes[at] {
                    WikiNode::Table { rows } => PromotionalCodes::from_table(rows),
                    _ => PromotionalCodes { codes: Vec::new() },
                }
            },
            None => {
                let codes: Vec<PromotionalCode> = Vec::new();
                assert(records_view(codes@) =~= Seq::<PromotionalCodeView>::empty());
                PromotionalCodes { codes }
            },
        }
    }

    fn get_title() -> (title: &'static str) {
        "Promotional_Codes"
    }

    fn difference(&self, other: &PromotionalCodes) -> (added: PromotionalCodes) {
        let mut difference: Vec<PromotionalCode> = Vec::new();
        let mut i: usize = 0;
        assert(self@.take(0) =~= Seq::<PromotionalCodeView>::empty());
        proof {
            lemma_filter_none(self@.take(0), is_new(other@));
        }
        assert(records_view(difference@) =~= added_records(self@.take(0), other@));
        while i < self.codes.len()
            invariant
                i <= self.codes.len(),
                records_view(difference@) == added_records(self@.take(i as int), other@),
            decreases self.codes.len() - i,
        {
            let ghost before = records_view(difference@);
            proof {
                assert(self@.take(i + 1) =~= self@.take(i as int).push(self@[i as int]));
                self@.take(i as int).lemma_filter_push(self@[i as int], is_new(other@));
            }
            if !holds_record(&other.codes, &self.codes[i]) {
                difference.push(self.codes[i].clone());
                assert(records_view(difference@) =~= before.push(self@[i as int]));
            }
            i += 1;
        }
        assert(self@.take(self.codes.len() as int) =~= self@);
        PromotionalCodes { codes: difference }
    }

    fn empty(&self) -> (empty: bool) {
        self.codes.is_empty()
    }
}

} // verus!
