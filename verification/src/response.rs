//! The answer of the wiki's query interface: where the text of the page
//! stands in it, and what is asked for.

use vstd::prelude::*;
use serde_json::Value;
use crate::document::{parsed_document, resource_from_wiki_text};
use crate::error::WikiError;
use crate::resource::WikiResource;
use crate::site::site_source;
use crate::text::{replace_text, replaced};

verus! {

/// A JSON value of `serde_json`.
#[verifier::external_type_specification]
#[verifier::external_body]
pub struct ExJsonValue(serde_json::Value);

/// The error that `serde_json` reports for a text that is no JSON document.
#[verifier::external_type_specification]
#[verifier::external_body]
pub struct ExJsonError(serde_json::Error);

/// The JSON value that a text denotes; none where the text is no JSON
/// document.
pub uninterp spec fn json_document(text: Seq<char>) -> Option<Value>;

/// The member of a JSON object under a key; the JSON null where the value is
/// no object or has no such member.
pub uninterp spec fn json_member(value: Value, key: Seq<char>) -> Value;

/// The element of a JSON array at an index; the JSON null where the value is
/// no array or is too short.
pub uninterp spec fn json_element(value: Value, index: nat) -> Value;

/// The text of a JSON string; none where the value is no string.
pub uninterp spec fn json_string(value: Value) -> Option<Seq<char>>;

/// Calls `serde_json::from_str` for a `Value`: the value that the text
/// denotes, or an error where the text is no JSON document.
#[verifier::external_body]
fn parse_json(text: &str) -> (parsed: Result<Value, serde_json::Error>)
    ensures
        match parsed {
            Ok(value) => json_document(text@) == Some(value),
            Err(_) => json_document(text@) is None,
        },
{
    serde_json::from_str::<Value>(text)
}

/// Indexes a `Value` of `serde_json` by a string. On a shared reference the
/// index operator does not fail: it gives the member, or a null value.
#[verifier::external_body]
fn member_of<'a>(value: &'a Value, key: &str) -> (member: &'a Value)
    ensures
        *member == json_member(*value, key@),
{
    &value[key]
}

/// Indexes a `Value` of `serde_json` by a position. On a shared reference
/// the index operator does not fail: it gives the element, or a null value.
#[verifier::external_body]
fn element_of<'a>(value: &'a Value, index: usize) -> (element: &'a Value)
    ensures
        *element == json_element(*value, index as nat),
{
    &value[index]
}

/// Calls `Value::as_str` of `serde_json`: the text of a string value, and
/// nothing for any other value.
#[verifier::external_body]
fn string_of<'a>(value: &'a Value) -> (text: Option<&'a str>)
    ensures
        match text {
            Some(content) => json_string(*value) == Some(content@),
            None => json_string(*value) is None,
        },
{
    value.as_str()
}

/// The address of the wiki's query interface.
pub const API_ENDPOINT: &'static str = "https://genshin-impact.fandom.com/api.php";

/// The parameters of the query for the current text of the page `title`.
pub open spec fn query_of(title: Seq<char>) -> Seq<(Seq<char>, Seq<char>)> {
    seq![
        ("action"@, "query"@),
        ("prop"@, "revisions"@),
        ("titles"@, title),
        ("rvslots"@, "*"@),
        ("rvprop"@, "content"@),
        ("formatversion"@, "2"@),
        ("format"@, "json"@),
    ]
}

/// The character sequences of a sequence of pairs of string slices.
pub open spec fn pairs_view(pairs: Seq<(&'static str, &'static str)>) -> Seq<(Seq<char>, Seq<char>)> {
    Seq::new(pairs.len(), |i: int| (pairs[i].0@, pairs[i].1@))
}

/// The parameters of the query for the current text of a resource's page.
pub fn wiki_query<T: WikiResource>() -> (query: Vec<(&'static str, &'static str)>)
    ensures
        pairs_view(query@) == query_of(T::title()),
{
    let mut query: Vec<(&'static str, &'static str)> = Vec::new();
    query.push(("action", "query"));
    query.push(("prop", "revisions"));
    query.push(("titles", T::get_title()));
    query.push(("rvslots", "*"));
    query.push(("rvprop", "content"));
    query.push(("formatversion", "2"));
    query.push(("format", "json"));
    assert(pairs_view(query@) =~= query_of(T::title()));
    query
}

/// Where the text of the page stands in the answer: the content of the main
/// slot of the first revision of the first page.
pub open spec fn page_content(document: Value) -> Value {
    let pages = json_member(json_member(document, "query"@), "pages"@);
    let revisions = json_member(json_element(pages, 0), "revisions"@);
    let slots = json_member(json_element(revisions, 0), "slots"@);
    json_member(json_member(slots, "main"@), "content"@)
}

/// The text with its written escapes resolved: a backslash before `n`, a
/// double quote, a single quote or `t` becomes a line feed, the quote, or a
/// tabulator. The four kinds are resolved one after the other, each over the
/// whole text.
pub open spec fn unescaped(text: Seq<char>) -> Seq<char> {
    replaced(
        replaced(replaced(replaced(text, "\\n"@, "\n"@), "\\\""@, "\""@), "\\'"@, "'"@),
        "\\t"@,
        "\t"@,
    )
}

/// The wiki text that an answer holds: the page content of the JSON document
/// that the answer denotes, unescaped. None where the answer is no JSON
/// document or the page content is no string.
pub open spec fn wiki_text_of(body: Seq<char>) -> Option<Seq<char>> {
    match json_document(body) {
        Some(document) => match json_string(page_content(document)) {
            Some(content) => Some(unescaped(content)),
            None => None,
        },
        None => None,
    }
}

/// Resolves the written escapes of a text.
pub fn unescape(text: &str) -> (result: String)
    ensures
        result@ == unescaped(text@),
{
    proof {
        reveal_strlit("\\n");
        reveal_strlit("\\\"");
        reveal_strlit("\\'");
        reveal_strlit("\\t");
    }
    let lines = replace_text(text, "\\n", "\n");
    let double_quotes = replace_text(lines.as_str(), "\\\"", "\"");
    let single_quotes = replace_text(double_quotes.as_str(), "\\'", "'");
    replace_text(single_quotes.as_str(), "\\t", "\t")
}

/// Reads the wiki text out of the JSON document of an answer.
pub fn wiki_text_from_document(document: &Value) -> (text: Option<String>)
    ensures
        match text {
            Some(content) => json_string(page_content(*document)) matches Some(raw)
                && content@ == unescaped(raw),
            None => json_string(page_content(*document)) is None,
        },
{
    let pages = member_of(member_of(document, "query"), "pages");
    let revisions = member_of(element_of(pages, 0), "revisions");
    let slots = member_of(element_of(revisions, 0), "slots");
    let content = member_of(member_of(slots, "main"), "content");
    match string_of(content) {
        Some(raw) => Some(unescape(raw)),
        None => None,
    }
}

/// Reads the wiki text out of the body of an answer. Fails where the body
/// is no JSON document, or holds no text at the place of the page content.
pub fn wiki_text_from_response(body: &str) -> (text: Result<String, WikiError>)
    ensures
        match text {
            Ok(content) => wiki_text_of(body@) == Some(content@),
            Err(_) => wiki_text_of(body@) is None,
        },
{
    match parse_json(body) {
        Ok(document) => match wiki_text_from_document(&document) {
            Some(content) => Ok(content),
            None => Err(WikiError),
        },
        Err(_) => Err(WikiError),
    }
}

/// Extracts a resource from the body of an answer: the wiki text is read out
/// of the answer, parsed under the site's settings, and the resource is read
/// from the nodes. Fails exactly where the answer holds no wiki text.
pub fn resource_from_response<T: WikiResource>(body: &str) -> (resource: Result<T, WikiError>)
    ensures
        match resource {
            Ok(snapshot) => wiki_text_of(body@) matches Some(text) && snapshot@ == T::extracted(
                parsed_document(site_source(), text),
            ),
            Err(_) => wiki_text_of(body@) is None,
        },
{
    match wiki_text_from_response(body) {
        Ok(text) => Ok(resource_from_wiki_text::<T>(text.as_str())),
        Err(error) => Err(error),
    }
}

} // verus!
