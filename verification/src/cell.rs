//! The cell flattener: the plain text that a reader sees in a table cell.

use vstd::prelude::*;
use crate::markup::{Markup, WikiNode, nodes_view};
use crate::text::{concat_runs, runs_view};

verus! {

/// The text runs that one node contributes, in reading order: a text run
/// contributes its value, a link what its display content contributes, and
/// every other node nothing.
pub open spec fn node_runs(node: Markup) -> Seq<Seq<char>>
    decreases node, 2int,
{
    match node {
        Markup::Text(value) => seq![value],
        Markup::Link(display) => text_runs(display),
        _ => Seq::empty(),
    }
}

/// The text runs of a node sequence, depth first and in order.
pub open spec fn text_runs(cell: Seq<Markup>) -> Seq<Seq<char>>
    decreases cell, 1int,
{
    runs_by_node(cell).flatten()
}

/// For each node of a sequence, the text runs that it contributes.
pub open spec fn runs_by_node(cell: Seq<Markup>) -> Seq<Seq<Seq<char>>>
    decreases cell, 0int,
{
    Seq::new(
        cell.len(),
        |i: int| if 0 <= i < cell.len() { node_runs(cell[i]) } else { Seq::empty() },
    )
}

/// The plain text of a cell: its text runs joined without separators.
pub open spec fn flattened(cell: Seq<Markup>) -> Seq<char> {
    text_runs(cell).flatten()
}

/// Appending one node to a sequence appends that node's runs.
pub proof fn lemma_text_runs_push(cell: Seq<Markup>, node: Markup)
    ensures
        text_runs(cell.push(node)) == text_runs(cell) + node_runs(node),
{
    assert(runs_by_node(cell.push(node)) =~= runs_by_node(cell).push(node_runs(node)));
    runs_by_node(cell).lemma_flatten_push(node_runs(node));
}

/// The text runs of two node sequences, one after the other, are the runs
/// of the first followed by the runs of the second; so is their plain text.
pub proof fn lemma_flattened_concat(left: Seq<Markup>, right: Seq<Markup>)
    ensures
        text_runs(left + right) == text_runs(left) + text_runs(right),
        flattened(left + right) == flattened(left) + flattened(right),
{
    assert(runs_by_node(left + right) =~= runs_by_node(left) + runs_by_node(right));
    vstd::seq_lib::lemma_flatten_concat(runs_by_node(left), runs_by_node(right));
    vstd::seq_lib::lemma_flatten_concat(text_runs(left), text_runs(right));
}

/// A cell of text runs alone flattens to the concatenation of their values,
/// in order and with nothing put between them.
pub proof fn lemma_flattened_texts(values: Seq<Seq<char>>)
    ensures
        text_runs(values.map_values(|value: Seq<char>| Markup::Text(value))) == values,
        flattened(values.map_values(|value: Seq<char>| Markup::Text(value))) == values.flatten(),
    decreases values.len(),
{
    let as_text = |value: Seq<char>| Markup::Text(value);
    let cell = values.map_values(as_text);
    if values.len() == 0 {
        assert(runs_by_node(cell) =~= Seq::<Seq<Seq<char>>>::empty());
        assert(text_runs(cell) =~= values);
    } else {
        let rest = values.drop_last();
        lemma_flattened_texts(rest);
        assert(cell =~= rest.map_values(as_text).push(Markup::Text(values.last())));
        lemma_text_runs_push(rest.map_values(as_text), Markup::Text(values.last()));
        assert(rest + seq![values.last()] =~= values);
    }
}

/// A link shows its display content: a cell that holds one link flattens to
/// what the display content flattens to.
pub proof fn lemma_flattened_link(display: Seq<Markup>)
    ensures
        flattened(seq![Markup::Link(display)]) == flattened(display),
{
    lemma_text_runs_push(Seq::empty(), Markup::Link(display));
    assert(Seq::<Markup>::empty().push(Markup::Link(display)) =~= seq![Markup::Link(display)]);
    assert(runs_by_node(Seq::<Markup>::empty()) =~= Seq::<Seq<Seq<char>>>::empty());
    assert(text_runs(Seq::<Markup>::empty()) + text_runs(display) =~= text_runs(display));
}

/// A node that is neither a text run nor a link contributes nothing.
pub proof fn lemma_flattened_skips(cell: Seq<Markup>, node: Markup)
    requires
        !(node is Text),
        !(node is Link),
    ensures
        flattened(cell.push(node)) == flattened(cell),
{
    lemma_text_runs_push(cell, node);
    assert(text_runs(cell) + Seq::<Seq<char>>::empty() =~= text_runs(cell));
}

/// Collects the text runs of a cell: every `Text` value, and those found in
/// the display content of links, in reading order.
pub fn get_cell_content<'a>(nodes: &'a Vec<WikiNode>) -> (content: Vec<&'a str>)
    ensures
        runs_view(content@) == text_runs(nodes_view(nodes@)),
    decreases nodes,
{
    let mut content: Vec<&'a str> = Vec::new();
    let mut i: usize = 0;
    assert(runs_view(content@) =~= text_runs(nodes_view(nodes@).take(0)));
    while i < nodes.len()
        invariant
            i <= nodes.len(),
            runs_view(content@) == text_runs(nodes_view(nodes@).take(i as int)),
        decreases nodes.len() - i,
    {
        let ghost before = runs_view(content@);
        let ghost all = nodes_view(nodes@);
        match &nodes[i] {
            WikiNode::Text { value } => {
                content.push(value.as_str());
                assert(runs_view(content@) =~= before + node_runs(all[i as int]));
            },
            WikiNode::Link { text } => {
                let mut inner = get_cell_content(text);
                let ghost inner_runs = runs_view(inner@);
                content.append(&mut inner);
                assert(runs_view(content@) =~= before + inner_runs);
            },
            _ => {
                assert(runs_view(content@) =~= before + node_runs(all[i as int]));
            },
        }
        proof {
            assert(all.take(i + 1) =~= all.take(i as int).push(all[i as int]));
            lemma_text_runs_push(all.take(i as int), all[i as int]);
        }
        i += 1;
    }
    assert(nodes_view(nodes@).take(nodes.len() as int) =~= nodes_view(nodes@));
    content
}

/// Flattens a cell to the plain text that a reader sees.
pub fn get_cell_content_as_string(nodes: &Vec<WikiNode>) -> (text: String)
    ensures
        text@ == flattened(nodes_view(nodes@)),
{
    let runs = get_cell_content(nodes);
    concat_runs(&runs)
}

} // verus!
