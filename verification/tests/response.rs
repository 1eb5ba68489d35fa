use wiki_resource::error::WikiError;
use wiki_resource::resource::WikiResource;
use wiki_resource::response::{
    resource_from_response, unescape, wiki_query, wiki_text_from_document,
    wiki_text_from_response, API_ENDPOINT,
};
use wiki_resource::snapshot::PromotionalCodes;

fn answer(content_json: &str) -> String {
    format!(
        "{{\"batchcomplete\":true,\"query\":{{\"pages\":[{{\"pageid\":1,\"title\":\"Promotional Codes\",\"revisions\":[{{\"slots\":{{\"main\":{{\"contentmodel\":\"wikitext\",\"content\":{}}}}}}}]}}]}}}}",
        content_json
    )
}

#[test]
fn query_asks_for_the_content_of_the_page() {
    assert_eq!(
        wiki_query::<PromotionalCodes>(),
        vec![
            ("action", "query"),
            ("prop", "revisions"),
            ("titles", "Promotional_Codes"),
            ("rvslots", "*"),
            ("rvprop", "content"),
            ("formatversion", "2"),
            ("format", "json"),
        ]
    );
    assert_eq!(API_ENDPOINT, "https://genshin-impact.fandom.com/api.php");
}

#[test]
fn error_message_is_fixed() {
    assert_eq!(WikiError.message(), "Ocurred an Error during Wiki fetching");
}

#[test]
fn unescape_resolves_the_four_written_escapes() {
    assert_eq!(unescape("a\\nb"), "a\nb");
    assert_eq!(unescape("say \\\"hi\\\""), "say \"hi\"");
    assert_eq!(unescape("it\\'s"), "it's");
    assert_eq!(unescape("a\\tb"), "a\tb");
    assert_eq!(unescape("\\n\\t\\\"\\'\\n"), "\n\t\"'\n");
}

#[test]
fn unescape_leaves_other_text_alone() {
    assert_eq!(unescape(""), "");
    assert_eq!(unescape("plain text\nwith a line"), "plain text\nwith a line");
    assert_eq!(unescape("back\\slash \\r \\"), "back\\slash \\r \\");
}

#[test]
fn unescape_reads_from_left_to_right() {
    assert_eq!(unescape("\\\\n"), "\\\n");
    assert_eq!(unescape("\\\\\\t"), "\\\\\t");
}

#[test]
fn wiki_text_is_read_from_the_answer() {
    let body = answer("\"line one\\nline two\"");
    assert_eq!(wiki_text_from_response(&body).unwrap(), "line one\nline two");
}

#[test]
fn written_escapes_in_the_content_are_resolved() {
    let body = answer("\"a\\\\nb \\\\\\\"q\\\\\\\" \\\\'s\\\\' \\\\tz\"");
    assert_eq!(wiki_text_from_response(&body).unwrap(), "a\nb \"q\" 's' \tz");
}

#[test]
fn answer_that_is_no_json_fails() {
    assert!(wiki_text_from_response("").is_err());
    assert!(wiki_text_from_response("<html>error</html>").is_err());
    assert!(wiki_text_from_response("{\"query\":").is_err());
    assert!(wiki_text_from_response("{} trailing").is_err());
}

#[test]
fn answer_without_page_content_fails() {
    assert!(wiki_text_from_response("{}").is_err());
    assert!(wiki_text_from_response("null").is_err());
    assert!(wiki_text_from_response("[1, 2]").is_err());
    assert!(wiki_text_from_response("{\"query\":{\"pages\":[]}}").is_err());
    assert!(wiki_text_from_response("{\"query\":{\"pages\":{\"1\":{}}}}").is_err());
    assert!(wiki_text_from_response(
        "{\"query\":{\"pages\":[{\"revisions\":[{\"slots\":{\"main\":{}}}]}]}}"
    )
    .is_err());
}

#[test]
fn page_content_that_is_no_string_fails() {
    assert!(wiki_text_from_response(&answer("null")).is_err());
    assert!(wiki_text_from_response(&answer("42")).is_err());
    assert!(wiki_text_from_response(&answer("[\"text\"]")).is_err());
    assert!(wiki_text_from_response(&answer("{\"text\":\"x\"}")).is_err());
}

#[test]
fn only_the_first_page_and_revision_are_read() {
    let body = "{\"query\":{\"pages\":[{\"revisions\":[{\"slots\":{\"main\":{\"content\":\"first\"}}},{\"slots\":{\"main\":{\"content\":\"second\"}}}]},{\"revisions\":[{\"slots\":{\"main\":{\"content\":\"third\"}}}]}]}}";
    assert_eq!(wiki_text_from_response(body).unwrap(), "first");
}

#[test]
fn wiki_text_is_read_from_a_parsed_document() {
    let document: serde_json::Value = serde_json::from_str(&answer("\"x\\\\ty\"")).unwrap();
    assert_eq!(wiki_text_from_document(&document), Some("x\ty".to_string()));
    let document: serde_json::Value = serde_json::from_str("{\"query\":7}").unwrap();
    assert_eq!(wiki_text_from_document(&document), None);
}

#[test]
fn codes_are_extracted_from_the_answer() {
    let body = answer(
        "\"Codes: == Available ==\\n{|\\n! Code !! Server !! Reward\\n|-\\n| ABC123 || All || Primogems x5\\n|}\\nOld: == Expired ==\\n\"",
    );
    let snapshot: PromotionalCodes = resource_from_response(&body).unwrap();
    assert_eq!(snapshot.codes.len(), 1);
    assert_eq!(snapshot.codes[0].code, Some("ABC123".to_string()));
    assert_eq!(snapshot.codes[0].server, Some("All".to_string()));
    assert_eq!(snapshot.codes[0].reward, Some("Primogems x5".to_string()));
}

#[test]
fn answer_without_wiki_text_yields_no_resource() {
    assert!(resource_from_response::<PromotionalCodes>("not json").is_err());
    assert!(resource_from_response::<PromotionalCodes>("{\"query\":{}}").is_err());
}

#[test]
fn answer_with_other_text_yields_the_empty_snapshot() {
    let snapshot: PromotionalCodes = resource_from_response(&answer("\"nothing here\"")).unwrap();
    assert!(snapshot.empty());
}
