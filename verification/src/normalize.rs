//! The tree normalizer: the walk that turns the engine's concrete tree into
//! normalized nodes.

use crate::engine::{child_at, child_count, end_of, is_error_node, kind_of, node_tree, start_of};
use crate::node::{
    has_flagged_node, leaves_bare, spans_inside, values_exact, CustomNode, NodeModel,
};
use crate::text::{lemma_span_text_bytes, span_in_text, span_of, span_text, text_bytes};
use crate::tree::{spans_fit, summary_covers, SyntaxTree};
use vstd::prelude::*;

verus! {

/// The normalized form of a concrete tree over the text it was parsed from.
///
/// A node keeps its kind, its offsets and its own error flag. Its value is
/// the text of its span, taken from the source and never put together from
/// the children. Its children are the normalized children in order, and
/// absent where it has none.
pub open spec fn normalize(tree: SyntaxTree, text: Seq<char>) -> NodeModel
    decreases tree,
{
    NodeModel {
        kind: tree.kind,
        value: span_text(text, tree.start as int, tree.end as int),
        start: tree.start,
        end: tree.end,
        is_error: tree.is_error,
        children: if tree.children.len() > 0 {
            Some(
                Seq::new(
                    tree.children.len(),
                    |i: int|
                        if 0 <= i < tree.children.len() {
                            normalize(tree.children[i], text)
                        } else {
                            arbitrary()
                        },
                ),
            )
        } else {
            None
        },
    }
}

/// Whether `node` has the shape of `tree`: children are absent exactly where
/// the concrete node has none, and otherwise answer the concrete children
/// one for one, in order.
pub open spec fn same_shape(tree: SyntaxTree, node: NodeModel) -> bool
    decreases tree,
{
    &&& node.children is None <==> tree.children.len() == 0
    &&& node.children matches Some(nodes) ==> {
        &&& nodes.len() == tree.children.len()
        &&& forall|i: int|
            0 <= i < nodes.len() ==> same_shape(#[trigger] tree.children[i], nodes[i])
    }
}

/// Every node of a normalized tree has ordered offsets that end within the
/// source text.
pub proof fn lemma_spans_inside(tree: SyntaxTree, text: Seq<char>)
    requires
        spans_fit(tree, text),
    ensures
        spans_inside(normalize(tree, text), text),
    decreases tree,
{
    let node = normalize(tree, text);
    if node.children is Some {
        let nodes = node.children->0;
        assert forall|i: int| 0 <= i < nodes.len() implies spans_inside(
            #[trigger] nodes[i],
            text,
        ) by {
            lemma_spans_inside(tree.children[i], text);
        }
    }
}

/// The value of every node of a normalized tree is, byte for byte, the part
/// of the source text between the node's offsets.
pub proof fn lemma_values_exact(tree: SyntaxTree, text: Seq<char>)
    requires
        spans_fit(tree, text),
    ensures
        values_exact(normalize(tree, text), text),
    decreases tree,
{
    let node = normalize(tree, text);
    lemma_span_text_bytes(text, tree.start as int, tree.end as int);
    if node.children is Some {
        let nodes = node.children->0;
        assert forall|i: int| 0 <= i < nodes.len() implies values_exact(
            #[trigger] nodes[i],
            text,
        ) by {
            lemma_values_exact(tree.children[i], text);
        }
    }
}

/// A normalized node has no children field exactly where its concrete
/// counterpart has no children, and never an empty one.
pub proof fn lemma_same_shape(tree: SyntaxTree, text: Seq<char>)
    ensures
        same_shape(tree, normalize(tree, text)),
        leaves_bare(normalize(tree, text)),
    decreases tree,
{
    let node = normalize(tree, text);
    if node.children is Some {
        let nodes = node.children->0;
        assert forall|i: int| 0 <= i < nodes.len() implies same_shape(
            #[trigger] tree.children[i],
            nodes[i],
        ) && leaves_bare(nodes[i]) by {
            lemma_same_shape(tree.children[i], text);
        }
    }
}

/// Where the engine's summary covers the flags, an error node anywhere in a
/// normalized tree means that the summary of the concrete root is set.
pub proof fn lemma_flagged_node_sets_summary(tree: SyntaxTree, text: Seq<char>)
    requires
        summary_covers(tree),
        tree.is_error ==> tree.has_error,
        has_flagged_node(normalize(tree, text)),
    ensures
        tree.has_error,
    decreases tree,
{
    if !tree.is_error {
        let nodes = normalize(tree, text).children->0;
        let i = choose|i: int| 0 <= i < nodes.len() && has_flagged_node(#[trigger] nodes[i]);
        let child = tree.children[i];
        if !child.is_error {
            lemma_flagged_node_sets_summary(child, text);
        }
    }
}

/// The normalized root of a tree over the empty text starts and ends at
/// offset zero and has the empty value; its children are absent exactly where
/// the concrete root has none.
pub proof fn lemma_empty_text_root(tree: SyntaxTree)
    requires
        spans_fit(tree, Seq::<char>::empty()),
    ensures
        normalize(tree, Seq::<char>::empty()).start == 0,
        normalize(tree, Seq::<char>::empty()).end == 0,
        normalize(tree, Seq::<char>::empty()).value == Seq::<char>::empty(),
        normalize(tree, Seq::<char>::empty()).children is None <==> tree.children.len() == 0,
{
    let text = Seq::<char>::empty();
    lemma_span_text_bytes(text, tree.start as int, tree.end as int);
    assert(text_bytes(text).subrange(0, 0) =~= text_bytes(text));
    vstd::utf8::encode_utf8_decode_utf8(text);
}

/// Tests whether the span of every node at and below `node` is a range of
/// whole characters inside `code`.
pub fn spans_in_text(node: tree_sitter::Node, code: &str) -> (fit: bool)
    ensures
        fit == spans_fit(node_tree(node), code@),
    decreases node_tree(node),
{
    let ghost tree = node_tree(node);
    if !span_in_text(code, start_of(&node), end_of(&node)) {
        return false;
    }
    let children_count = child_count(&node);
    let mut i: usize = 0;
    while i < children_count
        invariant
            tree == node_tree(node),
            children_count == tree.children.len(),
            i <= children_count,
            forall|k: int| 0 <= k < i ==> spans_fit(#[trigger] tree.children[k], code@),
        decreases children_count - i,
    {
        // The engine hands out a child for every index below the count.
        match child_at(&node, i) {
            Some(child) => {
                if !spans_in_text(child, code) {
                    return false;
                }
            },
            None => {},
        }
        i += 1;
    }
    true
}

/// Normalizes the node `node` of a tree parsed from `code`, with everything
/// below it.
pub fn reconstruct(node: tree_sitter::Node, code: &str) -> (result: CustomNode)
    requires
        spans_fit(node_tree(node), code@),
    ensures
        result@ == normalize(node_tree(node), code@),
        result.children is None <==> node_tree(node).children.len() == 0,
        spans_inside(result@, code@),
        values_exact(result@, code@),
        same_shape(node_tree(node), result@),
        leaves_bare(result@),
    decreases node_tree(node),
{
    let ghost tree = node_tree(node);
    let mut children: Vec<CustomNode> = Vec::new();
    let children_count = child_count(&node);
    let mut i: usize = 0;
    while i < children_count
        invariant
            tree == node_tree(node),
            spans_fit(tree, code@),
            children_count == tree.children.len(),
            i <= children_count,
            children@.len() == i,
            forall|k: int| 0 <= k < i ==> (#[trigger] children@[k])@ == normalize(tree.children[k], code@),
        decreases children_count - i,
    {
        // The engine hands out a child for every index below the count.
        match child_at(&node, i) {
            Some(child) => children.push(reconstruct(child, code)),
            None => {},
        }
        i += 1;
    }
    let start = start_of(&node);
    let end = end_of(&node);
    let result = CustomNode {
        kind: kind_of(&node).to_owned(),
        value: span_of(code, start, end).to_owned(),
        start,
        end,
        is_error: is_error_node(&node),
        children: if children_count > 0 {
            Some(children)
        } else {
            None
        },
    };
    proof {
        if children_count > 0 {
            assert(result@.children->0 =~= normalize(tree, code@).children->0);
        }
        lemma_spans_inside(tree, code@);
        lemma_values_exact(tree, code@);
        lemma_same_shape(tree, code@);
    }
    result
}

} // verus!
