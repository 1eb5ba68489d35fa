use wiki_resource::markup::{Cell, Row, WikiNode};
use wiki_resource::record::PromotionalCode;
use wiki_resource::resource::{wiki_resource_change, WikiResource};
use wiki_resource::snapshot::PromotionalCodes;

fn text(value: &str) -> WikiNode {
    WikiNode::Text { value: value.to_string() }
}

fn row(cells: &[&str]) -> Row {
    Row { cells: cells.iter().map(|c| Cell { content: vec![text(c)] }).collect() }
}

fn table(rows: Vec<Row>) -> WikiNode {
    WikiNode::Table { rows }
}

fn document() -> Vec<WikiNode> {
    vec![
        text("== Available =="),
        table(vec![row(&["Code", "Server", "Reward"]), row(&["ABC123", "All", "Primogems x5"])]),
        text("== Expired =="),
    ]
}

fn extract(nodes: &Vec<WikiNode>) -> PromotionalCodes {
    <PromotionalCodes as WikiResource>::from(nodes)
}

#[test]
fn available_table_yields_its_record() {
    let snapshot = extract(&document());
    assert_eq!(
        snapshot.codes,
        vec![PromotionalCode {
            code: Some("ABC123".to_string()),
            server: Some("All".to_string()),
            reward: Some("Primogems x5".to_string()),
            discovered: None,
            expires: None,
        }]
    );
}

#[test]
fn document_without_start_marker_yields_empty_snapshot() {
    let nodes = vec![
        text("Codes"),
        table(vec![row(&["Code"]), row(&["ABC123"])]),
        text("== Expired =="),
        table(vec![row(&["Code"]), row(&["OLD"])]),
    ];
    assert!(extract(&nodes).empty());
    assert!(extract(&vec![]).empty());
}

#[test]
fn only_the_table_of_the_open_section_is_read() {
    let nodes = vec![
        table(vec![row(&["Code"]), row(&["BEFORE"])]),
        text("== Expired =="),
        table(vec![row(&["Code"]), row(&["OLD"])]),
        text("== Available =="),
        table(vec![row(&["Code"]), row(&["NEW"])]),
        table(vec![row(&["Code"]), row(&["LATER"])]),
    ];
    let snapshot = extract(&nodes);
    assert_eq!(snapshot.codes.len(), 1);
    assert_eq!(snapshot.codes[0].code, Some("NEW".to_string()));
}

#[test]
fn located_table_without_rows_yields_empty_snapshot() {
    let nodes = vec![text("== Available =="), table(vec![]), table(vec![row(&["Code"]), row(&["X"])])];
    assert!(extract(&nodes).empty());
}

#[test]
fn wide_row_does_not_fail_the_extraction() {
    let nodes = vec![
        text("== Available =="),
        table(vec![row(&["Code"]), row(&["A", "extra"]), row(&["B"])]),
    ];
    let snapshot = extract(&nodes);
    assert_eq!(snapshot.codes.len(), 2);
    assert_eq!(snapshot.codes[0].code, Some("A".to_string()));
    assert_eq!(snapshot.codes[1].code, Some("B".to_string()));
}

#[test]
fn first_pass_reports_everything_and_second_pass_nothing() {
    let first = extract(&document());
    let news = wiki_resource_change(None, &first).expect("the first pass has news");
    assert_eq!(news.codes, first.codes);
    let second = extract(&document());
    assert!(wiki_resource_change(Some(first), &second).is_none());
}

#[test]
fn pass_reports_what_was_added() {
    let previous = extract(&document());
    let mut nodes = document();
    nodes[1] = table(vec![
        row(&["Code", "Server", "Reward"]),
        row(&["ABC123", "All", "Primogems x5"]),
        row(&["XYZ789", "EU", "Mora x10000"]),
    ]);
    let current = extract(&nodes);
    let added = wiki_resource_change(Some(previous), &current).expect("a code was added");
    assert_eq!(added.codes.len(), 1);
    assert_eq!(added.codes[0].code, Some("XYZ789".to_string()));
    assert_eq!(added.codes[0].server, Some("EU".to_string()));
    assert_eq!(added.codes[0].reward, Some("Mora x10000".to_string()));
}

#[test]
fn removed_records_are_not_reported() {
    let previous = extract(&document());
    let current = extract(&vec![text("== Available =="), table(vec![row(&["Code"])])]);
    assert!(wiki_resource_change(Some(previous), &current).is_none());
}

#[test]
fn empty_first_snapshot_is_not_reported() {
    let current = extract(&vec![]);
    assert!(wiki_resource_change(None, &current).is_none());
}

#[test]
fn clone_of_a_snapshot_holds_the_same_records() {
    let snapshot = extract(&document());
    let copy = snapshot.clone();
    assert_eq!(copy.codes, snapshot.codes);
    assert!(copy.difference(&snapshot).empty());
}
