use wiki_resource::markup::{Cell, Row, WikiNode};
use wiki_resource::record::PromotionalCode;
use wiki_resource::snapshot::{row_cell_texts, PromotionalCodes};

fn text(value: &str) -> WikiNode {
    WikiNode::Text { value: value.to_string() }
}

fn row(cells: &[&str]) -> Row {
    Row { cells: cells.iter().map(|c| Cell { content: vec![text(c)] }).collect() }
}

fn headers(names: &[&str]) -> Vec<String> {
    names.iter().map(|n| n.to_string()).collect()
}

fn some(value: &str) -> Option<String> {
    Some(value.to_string())
}

#[test]
fn new_record_has_every_field_absent() {
    let record = PromotionalCode::new();
    assert_eq!(record.code, None);
    assert_eq!(record.server, None);
    assert_eq!(record.reward, None);
    assert_eq!(record.discovered, None);
    assert_eq!(record.expires, None);
}

#[test]
fn all_five_columns_are_mapped() {
    let record = PromotionalCode::from_row(
        &headers(&["Code", "Server", "Reward", "Discovered", "Expires"]),
        &row(&["GENSHINGIFT", "All", "Primogems x50", "2020-11-11", "Indefinite"]),
    );
    assert_eq!(
        record,
        PromotionalCode {
            code: some("GENSHINGIFT"),
            server: some("All"),
            reward: some("Primogems x50"),
            discovered: some("2020-11-11"),
            expires: some("Indefinite"),
        }
    );
}

#[test]
fn columns_are_matched_by_header_not_by_position() {
    let one = PromotionalCode::from_row(
        &headers(&["Code", "Server", "Reward"]),
        &row(&["ABC123", "All", "Primogems x5"]),
    );
    let other = PromotionalCode::from_row(
        &headers(&["Reward", "Code", "Server"]),
        &row(&["Primogems x5", "ABC123", "All"]),
    );
    assert_eq!(one, other);
    assert_eq!(other.code, some("ABC123"));
    assert_eq!(other.server, some("All"));
    assert_eq!(other.reward, some("Primogems x5"));
}

#[test]
fn unrecognized_header_assigns_nothing() {
    let with = PromotionalCode::from_row(
        &headers(&["Code", "Notes", "Server"]),
        &row(&["ABC123", "limited", "All"]),
    );
    let without =
        PromotionalCode::from_row(&headers(&["Code", "Server"]), &row(&["ABC123", "All"]));
    assert_eq!(with, without);
    assert_eq!(with.reward, None);
}

#[test]
fn header_match_is_exact() {
    let record = PromotionalCode::from_row(
        &headers(&["code", "Server ", " Reward", "Expire"]),
        &row(&["a", "b", "c", "d"]),
    );
    assert_eq!(record, PromotionalCode::new());
}

#[test]
fn row_with_fewer_cells_leaves_later_fields_absent() {
    let record = PromotionalCode::from_row(
        &headers(&["Code", "Server", "Reward"]),
        &row(&["ABC123"]),
    );
    assert_eq!(record.code, some("ABC123"));
    assert_eq!(record.server, None);
    assert_eq!(record.reward, None);
}

#[test]
fn cells_beyond_the_last_header_are_ignored() {
    let record = PromotionalCode::from_row(
        &headers(&["Code", "Server"]),
        &row(&["ABC123", "All", "extra", "more"]),
    );
    assert_eq!(record.code, some("ABC123"));
    assert_eq!(record.server, some("All"));
    assert_eq!(record.reward, None);
    assert_eq!(record.discovered, None);
    assert_eq!(record.expires, None);
}

#[test]
fn row_without_cells_yields_the_blank_record() {
    let record = PromotionalCode::from_row(&headers(&["Code"]), &row(&[]));
    assert_eq!(record, PromotionalCode::new());
    let record = PromotionalCode::from_row(&headers(&[]), &row(&["a"]));
    assert_eq!(record, PromotionalCode::new());
}

#[test]
fn later_column_of_the_same_name_overwrites() {
    let record = PromotionalCode::from_row(
        &headers(&["Code", "Server", "Code"]),
        &row(&["first", "All", "second"]),
    );
    assert_eq!(record.code, some("second"));
    let record = PromotionalCode::from_row(
        &headers(&["Code", "Server", "Code"]),
        &row(&["first", "All"]),
    );
    assert_eq!(record.code, some("first"));
}

#[test]
fn empty_cell_gives_an_empty_text_not_an_absent_field() {
    let record = PromotionalCode::from_row(&headers(&["Code", "Server"]), &row(&["", "All"]));
    assert_eq!(record.code, some(""));
}

#[test]
fn cell_markup_is_flattened() {
    let cells = Row {
        cells: vec![
            Cell { content: vec![WikiNode::Link { text: vec![text("ABC")] }, text("123")] },
            Cell { content: vec![WikiNode::Other] },
        ],
    };
    let record = PromotionalCode::from_row(&headers(&["Code", "Server"]), &cells);
    assert_eq!(record.code, some("ABC123"));
    assert_eq!(record.server, some(""));
}

#[test]
fn row_cell_texts_flattens_each_cell() {
    let cells = Row {
        cells: vec![
            Cell { content: vec![text("Co"), text("de")] },
            Cell { content: vec![] },
            Cell { content: vec![WikiNode::Link { text: vec![text("Server")] }] },
        ],
    };
    assert_eq!(row_cell_texts(&cells), vec!["Code", "", "Server"]);
}

#[test]
fn table_yields_one_record_per_data_row_in_order() {
    let rows = vec![row(&["Code", "Reward"]), row(&["A", "1"]), row(&["B", "2"]), row(&["C"])];
    let snapshot = PromotionalCodes::from_table(&rows);
    assert_eq!(snapshot.codes.len(), 3);
    assert_eq!(snapshot.codes[0].code, some("A"));
    assert_eq!(snapshot.codes[0].reward, some("1"));
    assert_eq!(snapshot.codes[1].code, some("B"));
    assert_eq!(snapshot.codes[2].code, some("C"));
    assert_eq!(snapshot.codes[2].reward, None);
}

#[test]
fn table_without_data_rows_yields_nothing() {
    assert!(PromotionalCodes::from_table(&vec![row(&["Code", "Reward"])]).codes.is_empty());
    assert!(PromotionalCodes::from_table(&vec![]).codes.is_empty());
}

#[test]
fn records_compare_by_every_field() {
    let base = PromotionalCode::from_row(&headers(&["Code", "Server"]), &row(&["A", "All"]));
    let same = PromotionalCode::from_row(&headers(&["Server", "Code"]), &row(&["All", "A"]));
    let other = PromotionalCode::from_row(&headers(&["Code", "Server"]), &row(&["A", "EU"]));
    let less = PromotionalCode::from_row(&headers(&["Code"]), &row(&["A"]));
    let empty = PromotionalCode::from_row(&headers(&["Code", "Server"]), &row(&["A", ""]));
    assert!(base == same);
    assert!(base != other);
    assert!(base != less);
    assert!(less != empty);
    assert_eq!(base.clone(), base);
}
