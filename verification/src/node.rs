//! The binary expression tree built by the parser.

use vstd::prelude::*;

use crate::token::Token;
use crate::token::Tok;

verus! {

/// A binary-tree element: an operator-or-operand token with up to two owned
/// sub-trees.  A node with both branches empty is an atomic leaf; a `Pipe` or
/// `Bind` node holds its left operand and the continuation of the expression
/// on the right; an `Extension` node decorates its left branch only.
#[derive(Debug, PartialEq)]
pub struct Node {
    pub value: Token,
    pub left: Option<Box<Node>>,
    pub right: Option<Box<Node>>,
}

/// The mathematical model of a [`Node`].
#[verifier::ext_equal]
pub struct NodeV {
    pub value: Tok,
    pub left: Option<Box<NodeV>>,
    pub right: Option<Box<NodeV>>,
}

/// The model of an optional branch.
pub open spec fn bview(b: Option<Box<Node>>) -> Option<Box<NodeV>>
    decreases b,
{
    match b {
        Some(n) => Some(Box::new((*n).view())),
        None => None,
    }
}

impl View for Node {
    type V = NodeV;

    open spec fn view(&self) -> NodeV
        decreases self,
    {
        NodeV { value: self.value@, left: bview(self.left), right: bview(self.right) }
    }
}

impl DeepView for Node {
    type V = NodeV;

    open spec fn deep_view(&self) -> NodeV {
        self.view()
    }
}

impl NodeV {
    /// A leaf: a bare token with both branches empty.
    pub open spec fn leaf(value: Tok) -> NodeV {
        NodeV { value, left: None, right: None }
    }
}

/// The token a branch presents to the evaluator: its node's value, or the
/// sentinel `Unknown` for an absent branch.  An absent branch is never an
/// error at this layer.
pub open spec fn branch_tok(b: Option<Box<NodeV>>) -> Tok {
    match b {
        Some(n) => n.value,
        None => Tok::Unknown,
    }
}

/// Reads a branch's token without consuming the branch.
pub fn token_of(branch: &Option<Box<Node>>) -> (t: Token)
    ensures
        t@ == branch_tok(bview(*branch)),
{
    match branch {
        Some(n) => n.value.clone(),
        None => Token::Unknown,
    }
}

impl Node {
    pub fn new(value: Token) -> (n: Node)
        ensures
            n@ == NodeV::leaf(value@),
    {
        Node { value, left: None, right: None }
    }

    pub fn new_with_branches(value: Token, left: Option<Box<Node>>, right: Option<Box<Node>>) -> (n:
        Node)
        ensures
            n@ == (NodeV { value: value@, left: bview(left), right: bview(right) }),
    {
        Node { value, left, right }
    }

    /// Wraps the node as an owned branch.
    pub fn package(self) -> (b: Option<Box<Node>>)
        ensures
            bview(b) == Some(Box::new(self@)),
    {
        Some(Box::new(self))
    }
}

/// The models of a sequence of nodes, elementwise.
pub open spec fn nodes_view(ns: Seq<Node>) -> Seq<NodeV> {
    Seq::new(ns.len(), |i: int| ns[i]@)
}

/// Appending a node appends its model.
pub proof fn lemma_nodes_view_push(ns: Seq<Node>, n: Node)
    ensures
        nodes_view(ns.push(n)) == nodes_view(ns).push(n@),
{
    assert(nodes_view(ns.push(n)) =~= nodes_view(ns).push(n@));
}

} // verus!
