//! From wiki text to the document tree: the call into the markup parser, and
//! the extraction of a resource from the text of a page.

use vstd::prelude::*;
use parse_wiki_text::Configuration;
use crate::markup::{Markup, WikiNode, Cell, Row, nodes_view};
use crate::resource::WikiResource;
use crate::site::{SourceView, configuration_source, create_configuration, site_source};

verus! {

/// A node of the tree that `parse_wiki_text` returns.
#[verifier::external_type_specification]
#[verifier::external_body]
pub struct ExParsedNode<'a>(parse_wiki_text::Node<'a>);

/// A table row of the tree that `parse_wiki_text` returns.
#[verifier::external_type_specification]
#[verifier::external_body]
pub struct ExParsedRow<'a>(parse_wiki_text::TableRow<'a>);

/// A table cell of the tree that `parse_wiki_text` returns.
#[verifier::external_type_specification]
#[verifier::external_body]
pub struct ExParsedCell<'a>(parse_wiki_text::TableCell<'a>);

/// The top-level nodes that the markup parser finds in a text under given
/// settings, as far as extraction reads them: text runs with their value,
/// links with their display content, tables with their rows of cells, and
/// every other element as `Other`.
pub uninterp spec fn parsed_document(source: SourceView, text: Seq<char>) -> Seq<Markup>;

/// Carries one parsed node over into the library's tree. A `Text` keeps its
/// value, a `Link` its display text, a `Table` its rows; all other variants
/// become `Other`.
#[verifier::external_body]
fn node_from_parsed(node: &parse_wiki_text::Node) -> WikiNode {
    match node {
        parse_wiki_text::Node::Text { value, .. } => WikiNode::Text { value: value.to_string() },
        parse_wiki_text::Node::Link { text, .. } => WikiNode::Link {
            text: text.iter().map(node_from_parsed).collect(),
        },
        parse_wiki_text::Node::Table { rows, .. } => WikiNode::Table {
            rows: rows.iter().map(row_from_parsed).collect(),
        },
        _ => WikiNode::Other,
    }
}

/// Carries one parsed table row over: its cells, in order.
#[verifier::external_body]
fn row_from_parsed(row: &parse_wiki_text::TableRow) -> Row {
    Row { cells: row.cells.iter().map(cell_from_parsed).collect() }
}

/// Carries one parsed table cell over: its content, in order.
#[verifier::external_body]
fn cell_from_parsed(cell: &parse_wiki_text::TableCell) -> Cell {
    Cell { content: cell.content.iter().map(node_from_parsed).collect() }
}

/// Calls `Configuration::parse` of `parse_wiki_text` and carries the
/// top-level nodes of its output over into the library's tree. The parser
/// reads its configuration only through lookups, so what it returns is a
/// function of the settings and the text; the contract gives that result a
/// name and claims no more of it.
#[verifier::external_body]
fn parse_document(configuration: &Configuration, text: &str) -> (nodes: Vec<WikiNode>)
    ensures
        nodes_view(nodes@) == parsed_document(configuration_source(*configuration), text@),
{
    configuration.parse(text).nodes.iter().map(node_from_parsed).collect()
}

/// Parses the text of a page under the site's settings.
pub fn parse_page(text: &str) -> (nodes: Vec<WikiNode>)
    ensures
        nodes_view(nodes@) == parsed_document(site_source(), text@),
{
    let configuration = create_configuration();
    parse_document(&configuration, text)
}

/// Extracts a resource from the text of its page: the text is parsed under
/// the site's settings, and the resource is read from the nodes.
pub fn resource_from_wiki_text<T: WikiResource>(text: &str) -> (resource: T)
    ensures
        resource@ == T::extracted(parsed_document(site_source(), text@)),
{
    let nodes = parse_page(text);
    T::from(&nodes)
}

} // verus!
