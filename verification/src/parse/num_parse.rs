//! Expressions, and the statements that start with one.

use crate::parse::grammar::{
    expr_bounds,
    expr_spec,
    head_spec,
    primary_spec,
    read_bounds,
    read_spec,
};
use crate::parse::node::{Node, NodeView};
use crate::parse::option_view;
use crate::parse::parser::Parser;
use crate::tokenize::token::Token;
use crate::util::err::{ParseError, ParseErrorKind};
use crate::util::types::Keyword;
use vstd::prelude::*;

verus! {

impl<'t> Parser<'t> {
    /// Parses the expression that starts under the cursor with the token
    /// `token`: a number or a memory read, then an operator and another
    /// expression if an operator follows, then `char` if it follows.
    pub fn parse_num(&mut self, token: Token) -> (r: Result<Option<Node>, ParseError>)
        requires
            old(self).wf(),
        ensures
            final(self).follows(old(self)),
            match r {
                Ok(Some(node)) => expr_spec(token@, old(self).stream(), old(self).pos as int)
                    == Ok::<(NodeView, int), ParseErrorKind>((node@, final(self).pos as int))
                    && old(self).pos < final(self).pos,
                Ok(None) => false,
                Err(e) => expr_spec(token@, old(self).stream(), old(self).pos as int) == Err::<
                    (NodeView, int),
                    ParseErrorKind,
                >(e.kind) && e.index == old(self).expr,
            },
        decreases old(self).stream().len() - old(self).pos,
    {
        let ghost tokens = self.stream();
        let ghost start = self.pos as int;
        proof {
            expr_bounds(token@, tokens, start);
        }
        if self.pos >= self.tokens.len() {
            return Err(self.fail(ParseErrorKind::NotANumber));
        }
        let left = match token {
            Token::Data(num) => {
                self.advance();
                Node::Literal(num)
            },
            Token::Keyword(Keyword::Out) => match self.parse_out() {
                Ok(Some(read)) => read,
                Ok(None) => {
                    return Err(self.fail(ParseErrorKind::NotANumber));
                },
                Err(e) => {
                    return Err(e);
                },
            },
            _ => {
                return Err(self.fail(ParseErrorKind::NotANumber));
            },
        };
        assert(primary_spec(token@, tokens, start) == Ok::<(NodeView, int), ParseErrorKind>(
            (left@, self.pos as int),
        ));
        let node = match self.peek() {
            Some(Token::OpToken(o)) => {
                let op = *o;
                self.advance();
                let right = match self.peek() {
                    Some(Token::Data(n)) => self.parse_num(Token::Data(*n)),
                    Some(Token::Keyword(Keyword::Out)) => self.parse_num(
                        Token::Keyword(Keyword::Out),
                    ),
                    _ => {
                        return Err(self.fail(ParseErrorKind::MissingOperand));
                    },
                };
                match right {
                    Ok(Some(operand)) => {
                        let ghost l = left@;
                        let ghost r = operand@;
                        let both = Node::Eval(Box::new(left), op, Box::new(operand));
                        assert(both@ == NodeView::Eval(Box::new(l), op, Box::new(r)));
                        both
                    },
                    Ok(None) => {
                        return Err(self.fail(ParseErrorKind::MissingOperand));
                    },
                    Err(e) => {
                        return Err(e);
                    },
                }
            },
            _ => left,
        };
        match self.peek() {
            Some(Token::Keyword(Keyword::Char)) => {
                self.advance();
                let ghost inner = node@;
                let cast = Node::Char(Box::new(node));
                assert(cast@ == NodeView::Char(Box::new(inner)));
                Ok(Some(cast))
            },
            _ => Ok(Some(node)),
        }
    }

    /// Parses the statement that starts with an expression under the cursor:
    /// the expression alone before the end of a line, an assignment where
    /// `in` follows it, or a memory read where `out` follows it.
    pub fn parse_num_head(&mut self) -> (r: Result<Option<Node>, ParseError>)
        requires
            old(self).wf(),
        ensures
            final(self).follows(old(self)),
            match r {
                Ok(node) => head_spec(old(self).stream(), old(self).pos as int) == Ok::<
                    (Option<NodeView>, int),
                    ParseErrorKind,
                >((option_view(node), final(self).pos as int)) && old(self).pos < final(self).pos,
                Err(e) => head_spec(old(self).stream(), old(self).pos as int) == Err::<
                    (Option<NodeView>, int),
                    ParseErrorKind,
                >(e.kind) && e.index == old(self).expr,
            },
    {
        let ghost tokens = self.stream();
        let ghost start = self.pos as int;
        let parsed = match self.peek() {
            Some(Token::Data(n)) => self.parse_num(Token::Data(*n)),
            Some(Token::Keyword(Keyword::Out)) => self.parse_num(Token::Keyword(Keyword::Out)),
            _ => {
                return Err(self.fail(ParseErrorKind::NotANumber));
            },
        };
        let head = match parsed {
            Ok(Some(node)) => node,
            Ok(None) => {
                return Err(self.fail(ParseErrorKind::NotANumber));
            },
            Err(e) => {
                return Err(e);
            },
        };
        match self.peek() {
            None => Err(self.fail(ParseErrorKind::LoneNumber)),
            Some(Token::NewLine) => {
                self.advance();
                Ok(Some(head))
            },
            Some(Token::Keyword(Keyword::In)) => {
                self.advance();
                let parsed = match self.peek() {
                    None => {
                        return Err(self.fail(ParseErrorKind::AssignNothing));
                    },
                    Some(Token::Data(n)) => self.parse_num(Token::Data(*n)),
                    Some(Token::Keyword(Keyword::Out)) => self.parse_num(
                        Token::Keyword(Keyword::Out),
                    ),
                    Some(_) => {
                        return Err(self.fail(ParseErrorKind::NotANumber));
                    },
                };
                match parsed {
                    Ok(Some(value)) => {
                        let ghost i = head@;
                        let ghost v = value@;
                        let node = Node::Assign(Box::new(head), Box::new(value));
                        assert(node@ == NodeView::Assign(Box::new(i), Box::new(v)));
                        Ok(Some(node))
                    },
                    Ok(None) => Err(self.fail(ParseErrorKind::AssignNothing)),
                    Err(e) => Err(e),
                }
            },
            Some(Token::Keyword(Keyword::Out)) => match self.parse_out() {
                Ok(Some(read)) => {
                    let ghost inner = read@;
                    let node = Node::Out(Box::new(read));
                    assert(node@ == NodeView::Out(Box::new(inner)));
                    Ok(Some(node))
                },
                Ok(None) => Err(self.fail(ParseErrorKind::BadIndex)),
                Err(e) => Err(e),
            },
            Some(_) => Err(self.fail(ParseErrorKind::BadFollower)),
        }
    }

    /// Parses the memory read whose `out` is under the cursor: the index
    /// behind it is a number or another memory read.
    pub fn parse_out(&mut self) -> (r: Result<Option<Node>, ParseError>)
        requires
            old(self).wf(),
        ensures
            final(self).follows(old(self)),
            match r {
                Ok(Some(node)) => read_spec(old(self).stream(), old(self).pos as int) == Ok::<
                    (NodeView, int),
                    ParseErrorKind,
                >((node@, final(self).pos as int)) && old(self).pos + 1 < final(self).pos,
                Ok(None) => false,
                Err(e) => read_spec(old(self).stream(), old(self).pos as int) == Err::<
                    (NodeView, int),
                    ParseErrorKind,
                >(e.kind) && e.index == old(self).expr,
            },
        decreases old(self).stream().len() - old(self).pos,
    {
        proof {
            read_bounds(self.stream(), self.pos as int);
        }
        self.advance();
        match self.peek() {
            None => Err(self.fail(ParseErrorKind::MissingIndex)),
            Some(Token::Data(n)) => {
                let index = Node::Literal(*n);
                assert(index@ == NodeView::Literal(*n));
                let node = Node::Out(Box::new(index));
                assert(node@ == NodeView::Out(Box::new(NodeView::Literal(*n))));
                self.advance();
                Ok(Some(node))
            },
            Some(Token::Keyword(Keyword::Out)) => match self.parse_out() {
                Ok(Some(inner)) => {
                    let ghost read = inner@;
                    let node = Node::Out(Box::new(inner));
                    assert(node@ == NodeView::Out(Box::new(read)));
                    Ok(Some(node))
                },
                Ok(None) => Err(self.fail(ParseErrorKind::BadIndex)),
                Err(e) => Err(e),
            },
            Some(_) => Err(self.fail(ParseErrorKind::BadIndex)),
        }
    }
}

} // verus!
