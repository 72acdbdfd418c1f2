//! The nodes of a program.

use crate::util::types::{Number, Operator};
use vstd::prelude::*;

verus! {

/// A node of a program: an expression or a statement.
#[derive(Debug, PartialEq)]
pub enum Node {
    /// A number, or the thought register.
    Literal(Number),
    /// An expression taken as a character.
    Char(Box<Node>),
    Print(Box<Node>),
    /// A condition and the statements run when the thought register equals it.
    If(Box<Node>, Box<Vec<Node>>),
    Loop(Box<Vec<Node>>),
    /// A memory index and the value written there.
    Assign(Box<Node>, Box<Node>),
    /// A left operand, an operator and a right operand.
    Eval(Box<Node>, Operator, Box<Node>),
    Think(Box<Node>),
    /// A read of the memory at an index.
    Out(Box<Node>),
    /// A macro run on the caller's state.
    Run(String),
    /// A macro run as a task of its own.
    Spawn(String),
    Break,
}

/// A node, with blocks taken as sequences and names as their characters.
pub enum NodeView {
    Literal(Number),
    Char(Box<NodeView>),
    Print(Box<NodeView>),
    If(Box<NodeView>, Seq<NodeView>),
    Loop(Seq<NodeView>),
    Assign(Box<NodeView>, Box<NodeView>),
    Eval(Box<NodeView>, Operator, Box<NodeView>),
    Think(Box<NodeView>),
    Out(Box<NodeView>),
    Run(Seq<char>),
    Spawn(Seq<char>),
    Break,
}

/// The view of a node.
pub open spec fn node_view(node: Node) -> NodeView
    decreases node,
{
    match node {
        Node::Literal(n) => NodeView::Literal(n),
        Node::Char(e) => NodeView::Char(Box::new(node_view(*e))),
        Node::Print(e) => NodeView::Print(Box::new(node_view(*e))),
        Node::If(c, body) => NodeView::If(
            Box::new(node_view(*c)),
            Seq::new(
                body@.len(),
                |i: int|
                    if 0 <= i < body@.len() {
                        node_view(body@[i])
                    } else {
                        NodeView::Break
                    },
            ),
        ),
        Node::Loop(body) => NodeView::Loop(
            Seq::new(
                body@.len(),
                |i: int|
                    if 0 <= i < body@.len() {
                        node_view(body@[i])
                    } else {
                        NodeView::Break
                    },
            ),
        ),
        Node::Assign(i, v) => NodeView::Assign(Box::new(node_view(*i)), Box::new(node_view(*v))),
        Node::Eval(l, o, r) => NodeView::Eval(
            Box::new(node_view(*l)),
            o,
            Box::new(node_view(*r)),
        ),
        Node::Think(e) => NodeView::Think(Box::new(node_view(*e))),
        Node::Out(e) => NodeView::Out(Box::new(node_view(*e))),
        Node::Run(name) => NodeView::Run(name@),
        Node::Spawn(name) => NodeView::Spawn(name@),
        Node::Break => NodeView::Break,
    }
}

impl View for Node {
    type V = NodeView;

    open spec fn view(&self) -> NodeView {
        node_view(*self)
    }
}

/// The views of a sequence of nodes.
pub open spec fn node_views(nodes: Seq<Node>) -> Seq<NodeView> {
    Seq::new(nodes.len(), |i: int| nodes[i]@)
}

/// The views of nodes with one more node are the views with one more view.
pub proof fn node_views_push(nodes: Seq<Node>, node: Node)
    ensures
        node_views(nodes.push(node)) == node_views(nodes).push(node@),
{
    assert(node_views(nodes.push(node)) =~= node_views(nodes).push(node@));
}

/// The view of a block is the views of its nodes.
pub proof fn block_views(node: Node)
    ensures
        node matches Node::If(c, body) ==> node@ == NodeView::If(Box::new(c@), node_views(body@)),
        node matches Node::Loop(body) ==> node@ == NodeView::Loop(node_views(body@)),
{
    match node {
        Node::If(c, body) => {
            assert(node@->If_1 =~= node_views(body@));
        },
        Node::Loop(body) => {
            assert(node@->Loop_0 =~= node_views(body@));
        },
        _ => {},
    }
}

impl Node {
    /// The number of a literal; no other node is a number.
    pub fn to_num(&self) -> (r: Result<Number, &'static str>)
        ensures
            match r {
                Ok(n) => self@ == NodeView::Literal(n),
                Err(_) => !(self@ is Literal),
            },
    {
        match self {
            Node::Literal(n) => Ok(*n),
            _ => Err("Unable to convert a non-number node to a number!"),
        }
    }
}

/// A copy of each of a sequence of nodes.
pub fn clone_nodes(nodes: &Vec<Node>) -> (r: Vec<Node>)
    ensures
        node_views(r@) == node_views(nodes@),
    decreases nodes, 1int,
{
    let mut copies: Vec<Node> = Vec::new();
    let mut i: usize = 0;
    while i < nodes.len()
        invariant
            i <= nodes.len(),
            copies@.len() == i,
            forall|j: int| 0 <= j < i ==> copies@[j]@ == nodes@[j]@,
        decreases nodes.len() - i,
    {
        let copy = clone_node(&nodes[i]);
        copies.push(copy);
        i += 1;
    }
    assert(node_views(copies@) =~= node_views(nodes@));
    copies
}

/// A copy of a node.
pub fn clone_node(node: &Node) -> (r: Node)
    ensures
        r@ == node@,
    decreases node, 0int,
{
    proof {
        block_views(*node);
    }
    let copy = match node {
        Node::Literal(n) => Node::Literal(*n),
        Node::Char(e) => Node::Char(Box::new(clone_node(e))),
        Node::Print(e) => Node::Print(Box::new(clone_node(e))),
        Node::If(c, body) => Node::If(Box::new(clone_node(c)), Box::new(clone_nodes(body))),
        Node::Loop(body) => Node::Loop(Box::new(clone_nodes(body))),
        Node::Assign(i, v) => Node::Assign(Box::new(clone_node(i)), Box::new(clone_node(v))),
        Node::Eval(l, o, r) => Node::Eval(Box::new(clone_node(l)), *o, Box::new(clone_node(r))),
        Node::Think(e) => Node::Think(Box::new(clone_node(e))),
        Node::Out(e) => Node::Out(Box::new(clone_node(e))),
        Node::Run(name) => Node::Run(name.clone()),
        Node::Spawn(name) => Node::Spawn(name.clone()),
        Node::Break => Node::Break,
    };
    proof {
        block_views(copy);
    }
    copy
}

impl Clone for Node {
    fn clone(&self) -> (r: Node)
        ensures
            r@ == self@,
    {
        clone_node(self)
    }
}

} // verus!
