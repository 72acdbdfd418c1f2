//! From tokens to a program.

use crate::parse::grammar::UnitView;
use crate::parse::macros::MacroTable;
use crate::parse::node::node_views;
use vstd::prelude::*;

pub mod grammar;
pub mod keyword_parse;
pub mod macros;
pub mod node;
pub mod num_parse;
pub mod parser;
pub mod rel_parse;

pub use node::{Node, NodeView};

verus! {

/// The view of a node that may be missing.
pub open spec fn option_view(node: Option<Node>) -> Option<NodeView> {
    match node {
        Some(n) => Some(n@),
        None => None,
    }
}

/// What one statement parses to: a node to execute, where the statement is
/// not empty, or the name and body of a macro.
#[derive(Debug, PartialEq)]
pub enum ExprType {
    Node(Option<Node>),
    Macro((String, Box<Vec<Node>>)),
}

impl View for ExprType {
    type V = UnitView;

    open spec fn view(&self) -> UnitView {
        match *self {
            ExprType::Node(node) => UnitView::Node(option_view(node)),
            ExprType::Macro((name, body)) => UnitView::Macro(name@, node_views(body@)),
        }
    }
}

/// A parsed program: the statements to execute, in their order, and the
/// macros, if any is defined.
#[derive(Debug, PartialEq)]
pub struct ParserResult {
    pub nodes: Vec<Node>,
    pub macros: Option<MacroTable>,
}

impl ParserResult {
    /// The macros of the program, by name.
    pub open spec fn table(&self) -> Map<Seq<char>, Seq<NodeView>> {
        match self.macros {
            Some(macros) => macros@,
            None => Map::empty(),
        }
    }
}

} // verus!
