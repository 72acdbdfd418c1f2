//! The statements that hold a block: `if`, `loop` and `define`.

use crate::parse::grammar::{block_spec, define_spec, if_spec, loop_spec, newline_run, node_then};
use crate::parse::node::{block_views, node_views, node_views_push, Node, NodeView};
use crate::parse::parser::Parser;
use crate::parse::{option_view, ExprType};
use crate::tokenize::token::Token;
use crate::util::err::{Block, ParseError, ParseErrorKind};
use crate::util::types::Keyword;
use vstd::prelude::*;

verus! {

/// Nodes before the nodes of the rest of a block.
pub open spec fn nodes_then(
    nodes: Seq<NodeView>,
    rest: Result<(Seq<NodeView>, int), ParseErrorKind>,
) -> Result<(Seq<NodeView>, int), ParseErrorKind> {
    match rest {
        Ok((more, end)) => Ok((nodes + more, end)),
        Err(e) => Err(e),
    }
}

/// Putting a node behind the nodes read so far and then the rest is the same
/// as putting the node before the rest.
pub proof fn nodes_then_push(
    nodes: Seq<NodeView>,
    node: NodeView,
    rest: Result<(Seq<NodeView>, int), ParseErrorKind>,
)
    ensures
        nodes_then(nodes.push(node), rest) == nodes_then(nodes, node_then(Some(node), rest)),
{
    match rest {
        Ok((more, end)) => {
            assert(nodes.push(node) + more =~= nodes + (seq![node] + more));
        },
        Err(_) => {},
    }
}

impl<'t> Parser<'t> {
    /// Parses the statements of a block, from behind its opening brace to
    /// the brace that closes it. Braces that belong to no statement are
    /// counted, and the block ends where as many are closed as were opened.
    pub fn parse_block(&mut self, block: Block) -> (r: Result<Vec<Node>, ParseError>)
        requires
            old(self).wf(),
            old(self).pos >= 1,
        ensures
            final(self).follows(old(self)),
            match r {
                Ok(body) => block_spec(old(self).stream(), old(self).pos as int, 1, block) == Ok::<
                    (Seq<NodeView>, int),
                    ParseErrorKind,
                >((node_views(body@), final(self).pos as int)) && old(self).pos < final(self).pos,
                Err(e) => block_spec(old(self).stream(), old(self).pos as int, 1, block) == Err::<
                    (Seq<NodeView>, int),
                    ParseErrorKind,
                >(e.kind) && e.index == old(self).expr,
            },
        decreases old(self).stream().len() - old(self).pos, 2int,
    {
        let ghost tokens = self.stream();
        let ghost whole = block_spec(tokens, self.pos as int, 1, block);
        let mut body: Vec<Node> = Vec::new();
        let mut depth: usize = 1;
        proof {
            assert(node_views(body@) =~= Seq::empty());
            match whole {
                Ok((more, end)) => {
                    assert(Seq::<NodeView>::empty() + more =~= more);
                },
                Err(_) => {},
            }
        }
        loop
            invariant
                self.follows(old(self)),
                tokens == self.stream(),
                old(self).pos <= self.pos,
                1 <= depth <= self.pos,
                whole == block_spec(tokens, old(self).pos as int, 1, block),
                whole == nodes_then(
                    node_views(body@),
                    block_spec(tokens, self.pos as int, depth as nat, block),
                ),
            decreases tokens.len() - self.pos,
        {
            let ghost seen = node_views(body@);
            match self.peek() {
                None => {
                    return Err(self.fail(ParseErrorKind::MismatchedBraces(block)));
                },
                Some(Token::OpenBrace) => {
                    self.advance();
                    depth += 1;
                },
                Some(Token::CloseBrace) => {
                    self.advance();
                    if depth <= 1 {
                        proof {
                            assert(seen + Seq::<NodeView>::empty() =~= seen);
                        }
                        return Ok(body);
                    }
                    depth -= 1;
                },
                Some(Token::NewLine) => {
                    self.advance();
                },
                Some(_) => {
                    let ghost here = self.pos as int;
                    assert(newline_run(tokens, here) == 0);
                    match self.parse_expression() {
                        Ok(Some(ExprType::Node(Some(node)))) => {
                            proof {
                                node_views_push(body@, node);
                                nodes_then_push(
                                    seen,
                                    node@,
                                    block_spec(tokens, self.pos as int, depth as nat, block),
                                );
                            }
                            body.push(node);
                        },
                        Ok(Some(ExprType::Node(None))) => {},
                        Ok(Some(ExprType::Macro(_))) => {
                            return Err(self.fail(ParseErrorKind::NestedMacro(block)));
                        },
                        Ok(None) => {
                            return Err(self.fail(ParseErrorKind::MismatchedBraces(block)));
                        },
                        Err(e) => {
                            return Err(e);
                        },
                    }
                },
            }
        }
    }

    /// Parses the statement whose `if` is under the cursor: a condition, then
    /// a block.
    pub fn parse_if(&mut self) -> (r: Result<Option<Node>, ParseError>)
        requires
            old(self).wf(),
        ensures
            final(self).follows(old(self)),
            match r {
                Ok(node) => if_spec(old(self).stream(), old(self).pos as int) == Ok::<
                    (Option<NodeView>, int),
                    ParseErrorKind,
                >((option_view(node), final(self).pos as int)) && old(self).pos < final(self).pos,
                Err(e) => if_spec(old(self).stream(), old(self).pos as int) == Err::<
                    (Option<NodeView>, int),
                    ParseErrorKind,
                >(e.kind) && e.index == old(self).expr,
            },
        decreases old(self).stream().len() - old(self).pos, 0int,
    {
        self.advance();
        let parsed = match self.peek() {
            Some(Token::Data(n)) => self.parse_num(Token::Data(*n)),
            Some(Token::Keyword(Keyword::Out)) => self.parse_num(Token::Keyword(Keyword::Out)),
            _ => {
                return Err(self.fail(ParseErrorKind::IfCondition));
            },
        };
        let cond = match parsed {
            Ok(Some(node)) => node,
            Ok(None) => {
                return Err(self.fail(ParseErrorKind::IfCondition));
            },
            Err(e) => {
                return Err(e);
            },
        };
        match self.peek() {
            Some(Token::OpenBrace) => {},
            _ => {
                return Err(self.fail(ParseErrorKind::ExpectedOpenBrace(Block::If)));
            },
        }
        self.advance();
        match self.parse_block(Block::If) {
            Ok(body) => {
                let node = Node::If(Box::new(cond), Box::new(body));
                proof {
                    block_views(node);
                }
                Ok(Some(node))
            },
            Err(e) => Err(e),
        }
    }

    /// Parses the statement whose `loop` is under the cursor.
    pub fn parse_loop(&mut self) -> (r: Result<Option<Node>, ParseError>)
        requires
            old(self).wf(),
        ensures
            final(self).follows(old(self)),
            match r {
                Ok(node) => loop_spec(old(self).stream(), old(self).pos as int) == Ok::<
                    (Option<NodeView>, int),
                    ParseErrorKind,
                >((option_view(node), final(self).pos as int)) && old(self).pos < final(self).pos,
                Err(e) => loop_spec(old(self).stream(), old(self).pos as int) == Err::<
                    (Option<NodeView>, int),
                    ParseErrorKind,
                >(e.kind) && e.index == old(self).expr,
            },
        decreases old(self).stream().len() - old(self).pos, 0int,
    {
        self.advance();
        match self.peek() {
            Some(Token::OpenBrace) => {},
            _ => {
                return Err(self.fail(ParseErrorKind::ExpectedOpenBrace(Block::Loop)));
            },
        }
        self.advance();
        match self.parse_block(Block::Loop) {
            Ok(body) => {
                let node = Node::Loop(Box::new(body));
                proof {
                    block_views(node);
                }
                Ok(Some(node))
            },
            Err(e) => Err(e),
        }
    }

    /// Parses the macro definition whose `define` is under the cursor: a
    /// name, then a block.
    pub fn parse_def(&mut self) -> (r: Result<(String, Box<Vec<Node>>), ParseError>)
        requires
            old(self).wf(),
        ensures
            final(self).follows(old(self)),
            match r {
                Ok((name, body)) => define_spec(old(self).stream(), old(self).pos as int) == Ok::<
                    ((Seq<char>, Seq<NodeView>), int),
                    ParseErrorKind,
                >(((name@, node_views(body@)), final(self).pos as int))
                    && old(self).pos < final(self).pos,
                Err(e) => define_spec(old(self).stream(), old(self).pos as int) == Err::<
                    ((Seq<char>, Seq<NodeView>), int),
                    ParseErrorKind,
                >(e.kind) && e.index == old(self).expr,
            },
        decreases old(self).stream().len() - old(self).pos, 0int,
    {
        self.advance();
        let name = match self.peek() {
            Some(Token::RTKeyword(s)) => s.clone(),
            _ => {
                return Err(self.fail(ParseErrorKind::DefineName));
            },
        };
        self.advance();
        match self.peek() {
            Some(Token::OpenBrace) => {},
            _ => {
                return Err(self.fail(ParseErrorKind::ExpectedOpenBrace(Block::Define)));
            },
        }
        self.advance();
        match self.parse_block(Block::Define) {
            Ok(body) => Ok((name, Box::new(body))),
            Err(e) => Err(e),
        }
    }
}

} // verus!
