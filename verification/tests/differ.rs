use wiki_resource::record::PromotionalCode;
use wiki_resource::resource::WikiResource;
use wiki_resource::snapshot::PromotionalCodes;

fn code(name: &str) -> PromotionalCode {
    let mut record = PromotionalCode::new();
    record.code = Some(name.to_string());
    record
}

fn snapshot(names: &[&str]) -> PromotionalCodes {
    PromotionalCodes { codes: names.iter().map(|n| code(n)).collect() }
}

#[test]
fn difference_with_itself_is_empty() {
    let a = snapshot(&["x", "y", "z"]);
    let difference = a.difference(&a);
    assert!(difference.empty());
    assert!(difference.codes.is_empty());
}

#[test]
fn difference_with_the_empty_snapshot_is_everything() {
    let a = snapshot(&["x", "y"]);
    let difference = a.difference(&snapshot(&[]));
    assert_eq!(difference.codes, a.codes);
    assert!(!difference.empty());
}

#[test]
fn difference_of_the_empty_snapshot_is_empty() {
    assert!(snapshot(&[]).difference(&snapshot(&["x"])).empty());
    assert!(snapshot(&[]).difference(&snapshot(&[])).empty());
}

#[test]
fn difference_is_not_symmetric() {
    let a = snapshot(&["x", "y"]);
    let b = snapshot(&["y", "z"]);
    assert_eq!(a.difference(&b).codes, vec![code("x")]);
    assert_eq!(b.difference(&a).codes, vec![code("z")]);
}

#[test]
fn difference_keeps_the_order_of_the_current_snapshot() {
    let a = snapshot(&["d", "a", "c", "b"]);
    let b = snapshot(&["a", "q"]);
    assert_eq!(a.difference(&b).codes, vec![code("d"), code("c"), code("b")]);
}

#[test]
fn difference_keeps_repeated_new_records() {
    let a = snapshot(&["x", "y", "x"]);
    assert_eq!(a.difference(&snapshot(&["y"])).codes, vec![code("x"), code("x")]);
    assert!(a.difference(&snapshot(&["x", "y"])).empty());
}

#[test]
fn difference_compares_whole_records() {
    let mut changed = code("x");
    changed.expires = Some("tomorrow".to_string());
    let current = PromotionalCodes { codes: vec![changed.clone(), code("y")] };
    let previous = snapshot(&["x", "y"]);
    assert_eq!(current.difference(&previous).codes, vec![changed]);
}

#[test]
fn absent_field_differs_from_empty_text() {
    let mut blank_text = PromotionalCode::new();
    blank_text.code = Some(String::new());
    let current = PromotionalCodes { codes: vec![blank_text.clone()] };
    let previous = PromotionalCodes { codes: vec![PromotionalCode::new()] };
    assert_eq!(current.difference(&previous).codes, vec![blank_text]);
}

#[test]
fn empty_tells_whether_the_snapshot_holds_records() {
    assert!(snapshot(&[]).empty());
    assert!(!snapshot(&["x"]).empty());
}

#[test]
fn title_is_the_page_of_the_codes() {
    assert_eq!(<PromotionalCodes as WikiResource>::get_title(), "Promotional_Codes");
}
