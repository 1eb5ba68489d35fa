//! Promotional code records, and the record mapper that fills one record
//! from a table row by the text of the column headers.

use vstd::prelude::*;
use vstd::std_specs::cmp::PartialEqSpecImpl;
use crate::cell::{flattened, get_cell_content_as_string};
use crate::markup::{Markup, Row, cells_view};
use crate::text::same_text;

verus! {

/// One promotional code entry. A field is `None` where the table has no
/// column of that name, or the row has no cell in that column.
#[derive(Debug)]
pub struct PromotionalCode {
    pub code: Option<String>,
    pub server: Option<String>,
    pub reward: Option<String>,
    pub discovered: Option<String>,
    pub expires: Option<String>,
}

/// The model of a [`PromotionalCode`]: its fields as character sequences.
pub struct PromotionalCodeView {
    pub code: Option<Seq<char>>,
    pub server: Option<Seq<char>>,
    pub reward: Option<Seq<char>>,
    pub discovered: Option<Seq<char>>,
    pub expires: Option<Seq<char>>,
}

/// The characters of an optional string.
pub open spec fn field_view(field: Option<String>) -> Option<Seq<char>> {
    match field {
        Some(text) => Some(text@),
        None => None,
    }
}

impl View for PromotionalCode {
    type V = PromotionalCodeView;

    open spec fn view(&self) -> PromotionalCodeView {
        PromotionalCodeView {
            code: field_view(self.code),
            server: field_view(self.server),
            reward: field_view(self.reward),
            discovered: field_view(self.discovered),
            expires: field_view(self.expires),
        }
    }
}

/// The record with every field absent.
pub open spec fn blank_record() -> PromotionalCodeView {
    PromotionalCodeView { code: None, server: None, reward: None, discovered: None, expires: None }
}

/// The header text of the `code` column.
pub open spec fn code_header() -> Seq<char> {
    "Code"@
}

/// The header text of the `server` column.
pub open spec fn server_header() -> Seq<char> {
    "Server"@
}

/// The header text of the `reward` column.
pub open spec fn reward_header() -> Seq<char> {
    "Reward"@
}

/// The header text of the `discovered` column.
pub open spec fn discovered_header() -> Seq<char> {
    "Discovered"@
}

/// The header text of the `expires` column.
pub open spec fn expires_header() -> Seq<char> {
    "Expires"@
}

/// Whether a header names one of the record's fields.
pub open spec fn is_field_header(header: Seq<char>) -> bool {
    header == code_header() || header == server_header() || header == reward_header() || header
        == discovered_header() || header == expires_header()
}

/// The number of columns that a row shares with the header row. Cells beyond
/// the last header, and headers beyond the last cell, bind nothing.
pub open spec fn shared_width(headers: Seq<Seq<char>>, cells: Seq<Seq<char>>) -> int {
    if headers.len() <= cells.len() {
        headers.len() as int
    } else {
        cells.len() as int
    }
}

/// The last of the first `width` columns whose header is `name`.
pub open spec fn last_column(headers: Seq<Seq<char>>, width: int, name: Seq<char>) -> Option<int>
    decreases width,
{
    if width <= 0 {
        None
    } else if headers[width - 1] == name {
        Some(width - 1)
    } else {
        last_column(headers, width - 1, name)
    }
}

/// The value that a row gives to the field named `name`: the cell under the
/// last shared column with that header, or nothing where no shared column
/// bears the name.
pub open spec fn column_value(
    headers: Seq<Seq<char>>,
    cells: Seq<Seq<char>>,
    name: Seq<char>,
) -> Option<Seq<char>> {
    prefix_value(headers, cells, shared_width(headers, cells), name)
}

/// The record that a row of cell texts yields under a row of header texts.
pub open spec fn record_of(headers: Seq<Seq<char>>, cells: Seq<Seq<char>>) -> PromotionalCodeView {
    PromotionalCodeView {
        code: column_value(headers, cells, code_header()),
        server: column_value(headers, cells, server_header()),
        reward: column_value(headers, cells, reward_header()),
        discovered: column_value(headers, cells, discovered_header()),
        expires: column_value(headers, cells, expires_header()),
    }
}

/// The character sequences of a sequence of strings.
pub open spec fn texts_view(texts: Seq<String>) -> Seq<Seq<char>> {
    Seq::new(texts.len(), |i: int| texts[i]@)
}

/// The five field headers are pairwise different texts.
pub proof fn lemma_field_headers_differ()
    ensures
        code_header() != server_header(),
        code_header() != reward_header(),
        code_header() != discovered_header(),
        code_header() != expires_header(),
        server_header() != reward_header(),
        server_header() != discovered_header(),
        server_header() != expires_header(),
        reward_header() != discovered_header(),
        reward_header() != expires_header(),
        discovered_header() != expires_header(),
{
    reveal_strlit("Code");
    reveal_strlit("Server");
    reveal_strlit("Reward");
    reveal_strlit("Discovered");
    reveal_strlit("Expires");
    assert(code_header().len() == 4);
    assert(server_header().len() == 6);
    assert(reward_header().len() == 6);
    assert(discovered_header().len() == 10);
    assert(expires_header().len() == 7);
    assert(server_header()[0] == 'S');
    assert(reward_header()[0] == 'R');
}

/// Whether two optional strings hold the same text, or are both absent.
fn same_field(left: &Option<String>, right: &Option<String>) -> (same: bool)
    ensures
        same == (field_view(*left) == field_view(*right)),
{
    match (left, right) {
        (Some(a), Some(b)) => same_text(a.as_str(), b.as_str()),
        (None, None) => true,
        _ => false,
    }
}

/// A copy of an optional string.
fn copy_field(field: &Option<String>) -> (copy: Option<String>)
    ensures
        field_view(copy) == field_view(*field),
{
    match field {
        Some(text) => Some(text.clone()),
        None => None,
    }
}

impl PromotionalCode {
    /// A record with every field absent.
    pub fn new() -> (record: PromotionalCode)
        ensures
            record@ == blank_record(),
    {
        PromotionalCode { code: None, server: None, reward: None, discovered: None, expires: None }
    }

    /// Maps one data row to a record. `headers` holds the text of each
    /// header cell, in column order. Each cell of the row is flattened and
    /// assigned to the field that its column's header names; a header that
    /// names no field assigns nothing, and cells beyond the last header are
    /// ignored.
    pub fn from_row(headers: &Vec<String>, row: &Row) -> (record: PromotionalCode)
        ensures
            record@ == record_of(texts_view(headers@), row_texts(cells_view(row.cells@))),
    {
        let ghost names = texts_view(headers@);
        let ghost values = row_texts(cells_view(row.cells@));
        let mut record = PromotionalCode::new();
        let width = if headers.len() <= row.cells.len() {
            headers.len()
        } else {
            row.cells.len()
        };
        let mut column: usize = 0;
        while column < width
            invariant
                column <= width,
                width == shared_width(names, values),
                names == texts_view(headers@),
                values == row_texts(cells_view(row.cells@)),
                record@.code == prefix_value(names, values, column as int, code_header()),
                record@.server == prefix_value(names, values, column as int, server_header()),
                record@.reward == prefix_value(names, values, column as int, reward_header()),
                record@.discovered == prefix_value(
                    names,
                    values,
                    column as int,
                    discovered_header(),
                ),
                record@.expires == prefix_value(names, values, column as int, expires_header()),
            decreases width - column,
        {
            let value = get_cell_content_as_string(&row.cells[column].content);
            let header = headers[column].as_str();
            proof {
                lemma_field_headers_differ();
            }
            if same_text(header, "Code") {
                record.code = Some(value);
            } else if same_text(header, "Server") {
                record.server = Some(value);
            } else if same_text(header, "Reward") {
                record.reward = Some(value);
            } else if same_text(header, "Discovered") {
                record.discovered = Some(value);
            } else if same_text(header, "Expires") {
                record.expires = Some(value);
            }
            column += 1;
        }
        record
    }
}

/// The value of the field named `name` when only the first `width` columns
/// are read.
pub open spec fn prefix_value(
    headers: Seq<Seq<char>>,
    cells: Seq<Seq<char>>,
    width: int,
    name: Seq<char>,
) -> Option<Seq<char>> {
    match last_column(headers, width, name) {
        Some(column) => Some(cells[column]),
        None => None,
    }
}

/// The text of each cell of a row.
pub open spec fn row_texts(cells: Seq<Seq<Markup>>) -> Seq<Seq<char>> {
    Seq::new(cells.len(), |i: int| flattened(cells[i]))
}

/// The last column bearing a name lies within the width that was searched
/// and bears the name.
pub proof fn lemma_last_column(headers: Seq<Seq<char>>, width: int, name: Seq<char>)
    ensures
        match last_column(headers, width, name) {
            Some(column) => 0 <= column < width && headers[column] == name && forall|j: int|
                column < j < width ==> headers[j] != name,
            None => forall|j: int| 0 <= j < width ==> headers[j] != name,
        },
    decreases width,
{
    if width > 0 && headers[width - 1] != name {
        lemma_last_column(headers, width - 1, name);
    }
}

/// The shared columns of a row, each as the pair of its header and its cell.
pub open spec fn columns(headers: Seq<Seq<char>>, cells: Seq<Seq<char>>) -> Seq<
    (Seq<char>, Seq<char>),
> {
    Seq::new(shared_width(headers, cells) as nat, |i: int| (headers[i], cells[i]))
}

/// Whether the shared columns that bear the same field header also hold the
/// same cell text, so that no field depends on which of them comes last.
pub open spec fn columns_agree(headers: Seq<Seq<char>>, cells: Seq<Seq<char>>) -> bool {
    forall|i: int, j: int|
        0 <= i < j < shared_width(headers, cells) && headers[i] == headers[j] && is_field_header(
            headers[i],
        ) ==> cells[i] == cells[j]
}

/// A field has a value exactly where some shared column bears its name, and
/// the value is the cell of such a column.
pub proof fn lemma_column_value(headers: Seq<Seq<char>>, cells: Seq<Seq<char>>, name: Seq<char>)
    ensures
        match column_value(headers, cells, name) {
            Some(value) => columns(headers, cells).contains((name, value)),
            None => forall|value: Seq<char>| !columns(headers, cells).contains((name, value)),
        },
{
    let width = shared_width(headers, cells);
    lemma_last_column(headers, width, name);
    match last_column(headers, width, name) {
        Some(column) => {
            assert(columns(headers, cells)[column] == (name, cells[column]));
        },
        None => {},
    }
}

/// Two rows with the same columns in any order give a field the same value,
/// provided the columns that bear the field's name agree.
proof fn lemma_column_value_unordered(
    headers: Seq<Seq<char>>,
    cells: Seq<Seq<char>>,
    other_headers: Seq<Seq<char>>,
    other_cells: Seq<Seq<char>>,
    name: Seq<char>,
)
    requires
        columns(headers, cells).to_multiset() == columns(other_headers, other_cells).to_multiset(),
        columns_agree(headers, cells),
        is_field_header(name),
    ensures
        column_value(headers, cells, name) == column_value(other_headers, other_cells, name),
{
    let these = columns(headers, cells);
    let those = columns(other_headers, other_cells);
    these.to_multiset_ensures();
    those.to_multiset_ensures();
    lemma_column_value(headers, cells, name);
    lemma_column_value(other_headers, other_cells, name);
    lemma_last_column(headers, shared_width(headers, cells), name);
    match column_value(other_headers, other_cells, name) {
        Some(value) => {
            assert(those.to_multiset().count((name, value)) > 0);
            assert(these.contains((name, value)));
            let i = choose|i: int| 0 <= i < these.len() && these[i] == (name, value);
            assert(headers[i] == name && cells[i] == value);
        },
        None => {
            match column_value(headers, cells, name) {
                Some(value) => {
                    assert(these.to_multiset().count((name, value)) > 0);
                    assert(those.contains((name, value)));
                },
                None => {},
            }
        },
    }
}

/// The record mapper does not depend on the order of the columns: two rows
/// whose shared columns are the same pairs of header and cell, in any order,
/// yield the same record. This holds of every row in which the columns that
/// bear the same field header hold the same text.
pub proof fn lemma_record_ignores_column_order(
    headers: Seq<Seq<char>>,
    cells: Seq<Seq<char>>,
    other_headers: Seq<Seq<char>>,
    other_cells: Seq<Seq<char>>,
)
    requires
        columns(headers, cells).to_multiset() == columns(other_headers, other_cells).to_multiset(),
        columns_agree(headers, cells),
    ensures
        record_of(headers, cells) == record_of(other_headers, other_cells),
{
    lemma_column_value_unordered(headers, cells, other_headers, other_cells, code_header());
    lemma_column_value_unordered(headers, cells, other_headers, other_cells, server_header());
    lemma_column_value_unordered(headers, cells, other_headers, other_cells, reward_header());
    lemma_column_value_unordered(headers, cells, other_headers, other_cells, discovered_header());
    lemma_column_value_unordered(headers, cells, other_headers, other_cells, expires_header());
}

/// The position of a column after another column was put in at `at`.
spec fn shifted(column: Option<int>, at: int) -> Option<int> {
    match column {
        Some(i) => if i < at {
            Some(i)
        } else {
            Some(i + 1)
        },
        None => None,
    }
}

/// Before the place where a column is put in, nothing changes.
proof fn lemma_last_column_before_insert(
    headers: Seq<Seq<char>>,
    at: int,
    header: Seq<char>,
    width: int,
    name: Seq<char>,
)
    requires
        0 <= width <= at <= headers.len(),
    ensures
        last_column(headers.insert(at, header), width, name) == last_column(headers, width, name),
    decreases width,
{
    if width > 0 {
        assert(headers.insert(at, header)[width - 1] == headers[width - 1]);
        lemma_last_column_before_insert(headers, at, header, width - 1, name);
    }
}

/// Behind the place where a column under another header is put in, the last
/// column that bears a name moves one place to the right.
proof fn lemma_last_column_behind_insert(
    headers: Seq<Seq<char>>,
    at: int,
    header: Seq<char>,
    width: int,
    name: Seq<char>,
)
    requires
        0 <= at <= width <= headers.len(),
        header != name,
    ensures
        last_column(headers.insert(at, header), width + 1, name) == shifted(
            last_column(headers, width, name),
            at,
        ),
    decreases width,
{
    let wider = headers.insert(at, header);
    if width == at {
        assert(wider[at] == header);
        lemma_last_column_before_insert(headers, at, header, at, name);
        lemma_last_column(headers, at, name);
    } else {
        assert(wider[width] == headers[width - 1]);
        lemma_last_column_behind_insert(headers, at, header, width - 1, name);
    }
}

/// A column whose header is not `name` gives no value to the field `name`:
/// with such a column put in at any shared position, the field keeps its
/// value.
proof fn lemma_column_value_insert(
    headers: Seq<Seq<char>>,
    cells: Seq<Seq<char>>,
    at: int,
    header: Seq<char>,
    cell: Seq<char>,
    name: Seq<char>,
)
    requires
        0 <= at <= shared_width(headers, cells),
        header != name,
    ensures
        column_value(headers.insert(at, header), cells.insert(at, cell), name) == column_value(
            headers,
            cells,
            name,
        ),
{
    let width = shared_width(headers, cells);
    assert(headers.insert(at, header).len() == headers.len() + 1);
    assert(cells.insert(at, cell).len() == cells.len() + 1);
    lemma_last_column_behind_insert(headers, at, header, width, name);
    lemma_last_column(headers, width, name);
    match last_column(headers, width, name) {
        Some(column) => {
            if column < at {
                assert(cells.insert(at, cell)[column] == cells[column]);
            } else {
                assert(cells.insert(at, cell)[column + 1] == cells[column]);
            }
        },
        None => {},
    }
}

/// A header that names no field assigns nothing: with a column under such a
/// header put into a row at any shared position, the row yields the same
/// record as without it.
pub proof fn lemma_unrecognized_header_assigns_nothing(
    headers: Seq<Seq<char>>,
    cells: Seq<Seq<char>>,
    at: int,
    header: Seq<char>,
    cell: Seq<char>,
)
    requires
        0 <= at <= shared_width(headers, cells),
        !is_field_header(header),
    ensures
        record_of(headers.insert(at, header), cells.insert(at, cell)) == record_of(headers, cells),
{
    lemma_column_value_insert(headers, cells, at, header, cell, code_header());
    lemma_column_value_insert(headers, cells, at, header, cell, server_header());
    lemma_column_value_insert(headers, cells, at, header, cell, reward_header());
    lemma_column_value_insert(headers, cells, at, header, cell, discovered_header());
    lemma_column_value_insert(headers, cells, at, header, cell, expires_header());
}

/// Cells beyond the last header are ignored, and so are headers beyond the
/// last cell: a row yields the record of its shared columns.
pub proof fn lemma_record_reads_shared_columns(headers: Seq<Seq<char>>, cells: Seq<Seq<char>>)
    ensures
        record_of(headers, cells) == record_of(
            headers.take(shared_width(headers, cells)),
            cells.take(shared_width(headers, cells)),
        ),
{
    let width = shared_width(headers, cells);
    lemma_prefix_value_take(headers, cells, width, code_header());
    lemma_prefix_value_take(headers, cells, width, server_header());
    lemma_prefix_value_take(headers, cells, width, reward_header());
    lemma_prefix_value_take(headers, cells, width, discovered_header());
    lemma_prefix_value_take(headers, cells, width, expires_header());
}

/// The value read from the first `width` columns does not depend on what
/// stands behind them.
proof fn lemma_prefix_value_take(
    headers: Seq<Seq<char>>,
    cells: Seq<Seq<char>>,
    width: int,
    name: Seq<char>,
)
    requires
        0 <= width <= headers.len(),
        width <= cells.len(),
    ensures
        prefix_value(headers, cells, width, name) == prefix_value(
            headers.take(width),
            cells.take(width),
            width,
            name,
        ),
{
    lemma_last_column(headers, width, name);
    lemma_last_column(headers.take(width), width, name);
    match last_column(headers, width, name) {
        Some(column) => {
            assert(headers.take(width)[column] == headers[column]);
        },
        None => {},
    }
    match last_column(headers.take(width), width, name) {
        Some(column) => {
            assert(headers.take(width)[column] == headers[column]);
        },
        None => {},
    }
}

impl Clone for PromotionalCode {
    fn clone(&self) -> (copy: PromotionalCode)
        ensures
            copy@ == self@,
    {
        PromotionalCode {
            code: copy_field(&self.code),
            server: copy_field(&self.server),
            reward: copy_field(&self.reward),
            discovered: copy_field(&self.discovered),
            expires: copy_field(&self.expires),
        }
    }
}

impl PartialEq for PromotionalCode {
    fn eq(&self, other: &PromotionalCode) -> (same: bool) {
        same_field(&self.code, &other.code) && same_field(&self.server, &other.server)
            && same_field(&self.reward, &other.reward) && same_field(
            &self.discovered,
            &other.discovered,
        ) && same_field(&self.expires, &other.expires)
    }
}

impl PartialEqSpecImpl for PromotionalCode {
    open spec fn obeys_eq_spec() -> bool {
        true
    }

    open spec fn eq_spec(&self, other: &PromotionalCode) -> bool {
        self@ == other@
    }
}

impl Eq for PromotionalCode {

}

} // verus!
