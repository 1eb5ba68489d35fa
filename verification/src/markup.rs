//! The document tree that extraction reads, and its mathematical model.

use vstd::prelude::*;

verus! {

/// One element of a parsed document. Only text runs, links and tables carry
/// meaning for extraction; every other kind of element is `Other`.
#[derive(Debug)]
pub enum WikiNode {
    /// A run of plain text.
    Text { value: String },
    /// A link; `text` is what a reader sees, the target is not kept.
    Link { text: Vec<WikiNode> },
    /// A table.
    Table { rows: Vec<Row> },
    /// Any other element.
    Other,
}

/// One row of a table.
#[derive(Debug)]
pub struct Row {
    pub cells: Vec<Cell>,
}

/// One cell of a table row: a sequence of inline nodes.
#[derive(Debug)]
pub struct Cell {
    pub content: Vec<WikiNode>,
}

/// The model of a [`WikiNode`]: the same tree over mathematical sequences.
pub enum Markup {
    /// A run of plain text, with its value.
    Text(Seq<char>),
    /// A link, with its display content.
    Link(Seq<Markup>),
    /// A table, with its rows; a row is a sequence of cells, and a cell a
    /// sequence of nodes.
    Table(Seq<Seq<Seq<Markup>>>),
    /// Any other element.
    Other,
}

impl WikiNode {
    /// The model of this node.
    pub open spec fn view(&self) -> Markup
        decreases self,
    {
        match self {
            WikiNode::Text { value } => Markup::Text(value@),
            WikiNode::Link { text } => Markup::Link(nodes_view(text@)),
            WikiNode::Table { rows } => Markup::Table(rows_view(rows@)),
            WikiNode::Other => Markup::Other,
        }
    }
}

/// The models of a sequence of nodes, in order.
pub open spec fn nodes_view(nodes: Seq<WikiNode>) -> Seq<Markup>
    decreases nodes,
{
    Seq::new(nodes.len(), |i: int| if 0 <= i < nodes.len() { nodes[i].view() } else { Markup::Other })
}

/// The model of a table's rows: rows of cells of nodes.
pub open spec fn rows_view(rows: Seq<Row>) -> Seq<Seq<Seq<Markup>>>
    decreases rows,
{
    Seq::new(rows.len(), |i: int| if 0 <= i < rows.len() { cells_view(rows[i].cells@) } else { Seq::empty() })
}

/// The model of a row's cells.
pub open spec fn cells_view(cells: Seq<Cell>) -> Seq<Seq<Markup>>
    decreases cells,
{
    Seq::new(cells.len(), |i: int| if 0 <= i < cells.len() { nodes_view(cells[i].content@) } else { Seq::empty() })
}

} // verus!
