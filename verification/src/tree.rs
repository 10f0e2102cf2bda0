//! The mathematical model of a concrete syntax tree.

use crate::text::span_fits;
use vstd::prelude::*;

verus! {

/// A concrete node with everything below it, as the parsing engine reports it.
pub struct SyntaxTree {
    /// The grammar symbol's name.
    pub kind: Seq<char>,
    /// The byte offset at which the node starts.
    pub start: nat,
    /// The byte offset at which the node ends.
    pub end: nat,
    /// Whether the node itself is an error node.
    pub is_error: bool,
    /// The engine's own summary: whether the node holds a syntax error
    /// anywhere in or below it.
    pub has_error: bool,
    /// The children, in source order.
    pub children: Seq<SyntaxTree>,
}

/// Whether the span of every node of `tree` is a range of whole characters
/// inside `text`.
pub open spec fn spans_fit(tree: SyntaxTree, text: Seq<char>) -> bool
    decreases tree,
{
    &&& span_fits(text, tree.start as int, tree.end as int)
    &&& forall|i: int|
        0 <= i < tree.children.len() ==> spans_fit(#[trigger] tree.children[i], text)
}

/// Whether the engine's error summary covers the error flags throughout
/// `tree`: a node whose child is an error node, or whose child's summary is
/// set, has its own summary set.
pub open spec fn summary_covers(tree: SyntaxTree) -> bool
    decreases tree,
{
    forall|i: int|
        0 <= i < tree.children.len() ==> {
            let child = #[trigger] tree.children[i];
            &&& child.is_error || child.has_error ==> tree.has_error
            &&& summary_covers(child)
        }
}

} // verus!
