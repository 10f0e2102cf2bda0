//! The normalized, grammar-independent node tree and the top-level result.

use crate::text::text_bytes;
use vstd::prelude::*;

verus! {

/// A normalized node.
#[derive(Debug, PartialEq, Eq)]
pub struct CustomNode {
    /// The grammar symbol's name.
    pub kind: String,
    /// The source text between `start` and `end`.
    pub value: String,
    /// The byte offset at which the node starts.
    pub start: usize,
    /// The byte offset at which the node ends.
    pub end: usize,
    /// Whether the grammar flagged the node itself as a syntax error.
    pub is_error: bool,
    /// The children in source order; absent, not empty, on a node without
    /// children.
    pub children: Option<Vec<CustomNode>>,
}

/// The result of one parse.
#[derive(Debug, PartialEq, Eq)]
pub struct Program {
    /// Whether the engine found a syntax error anywhere in the tree.
    pub has_error: bool,
    /// The normalized root.
    pub root: CustomNode,
}

/// The value of a `CustomNode`.
pub struct NodeModel {
    pub kind: Seq<char>,
    pub value: Seq<char>,
    pub start: nat,
    pub end: nat,
    pub is_error: bool,
    pub children: Option<Seq<NodeModel>>,
}

/// The value of a `Program`.
pub struct ProgramModel {
    pub has_error: bool,
    pub root: NodeModel,
}

/// Whether the offsets of every node at and below `node` are ordered and end
/// within `text`, counted in bytes.
pub open spec fn spans_inside(node: NodeModel, text: Seq<char>) -> bool
    decreases node,
{
    &&& node.start <= node.end <= text_bytes(text).len()
    &&& node.children matches Some(nodes) ==> forall|i: int|
        0 <= i < nodes.len() ==> spans_inside(#[trigger] nodes[i], text)
}

/// Whether the value of every node at and below `node` is, byte for byte,
/// the part of `text` between the node's offsets.
pub open spec fn values_exact(node: NodeModel, text: Seq<char>) -> bool
    decreases node,
{
    &&& node.start <= node.end <= text_bytes(text).len()
    &&& text_bytes(node.value) == text_bytes(text).subrange(node.start as int, node.end as int)
    &&& node.children matches Some(nodes) ==> forall|i: int|
        0 <= i < nodes.len() ==> values_exact(#[trigger] nodes[i], text)
}

/// Whether no node at or below `node` has a child sequence that is present
/// and empty.
pub open spec fn leaves_bare(node: NodeModel) -> bool
    decreases node,
{
    node.children matches Some(nodes) ==> {
        &&& nodes.len() > 0
        &&& forall|i: int| 0 <= i < nodes.len() ==> leaves_bare(#[trigger] nodes[i])
    }
}

/// Whether `node` or a node below it is flagged as an error node.
pub open spec fn has_flagged_node(node: NodeModel) -> bool
    decreases node,
{
    ||| node.is_error
    ||| node.children matches Some(nodes) && exists|i: int|
        0 <= i < nodes.len() && has_flagged_node(#[trigger] nodes[i])
}

impl View for CustomNode {
    type V = NodeModel;

    open spec fn view(&self) -> NodeModel
        decreases self,
    {
        NodeModel {
            kind: self.kind@,
            value: self.value@,
            start: self.start as nat,
            end: self.end as nat,
            is_error: self.is_error,
            children: match self.children {
                None => None,
                Some(nodes) => Some(
                    Seq::new(
                        nodes@.len(),
                        |i: int|
                            if 0 <= i < nodes@.len() {
                                nodes@[i].view()
                            } else {
                                arbitrary()
                            },
                    ),
                ),
            },
        }
    }
}

impl View for Program {
    type V = ProgramModel;

    open spec fn view(&self) -> ProgramModel {
        ProgramModel { has_error: self.has_error, root: self.root@ }
    }
}

} // verus!
