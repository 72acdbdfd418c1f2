//! The statements that a keyword starts and an operand or a name ends.

use crate::parse::grammar::{
    macro_name_spec,
    operand_spec,
    print_spec,
    run_spec,
    spawn_spec,
    think_spec,
};
use crate::parse::node::{Node, NodeView};
use crate::parse::option_view;
use crate::parse::parser::Parser;
use crate::tokenize::token::Token;
use crate::util::err::{ParseError, ParseErrorKind};
use crate::util::types::Keyword;
use vstd::prelude::*;

verus! {

/// The characters of a name that may be missing.
pub open spec fn name_view(name: Option<String>) -> Option<Seq<char>> {
    match name {
        Some(s) => Some(s@),
        None => None,
    }
}

impl<'t> Parser<'t> {
    /// Parses what follows the keyword under the cursor: the end of the line,
    /// or an expression. `nothing` is the error where the tokens end behind
    /// the keyword, `other` the one where something else follows it.
    pub fn parse_operand(&mut self, nothing: ParseErrorKind, other: ParseErrorKind) -> (r: Result<
        Option<Node>,
        ParseError,
    >)
        requires
            old(self).wf(),
        ensures
            final(self).follows(old(self)),
            match r {
                Ok(node) => operand_spec(old(self).stream(), old(self).pos as int, nothing, other)
                    == Ok::<(Option<NodeView>, int), ParseErrorKind>(
                    (option_view(node), final(self).pos as int),
                ) && old(self).pos < final(self).pos,
                Err(e) => operand_spec(old(self).stream(), old(self).pos as int, nothing, other)
                    == Err::<(Option<NodeView>, int), ParseErrorKind>(e.kind) && e.index == old(
                    self,
                ).expr,
            },
    {
        self.advance();
        let parsed = match self.peek() {
            None => {
                return Err(self.fail(nothing));
            },
            Some(Token::NewLine) => {
                self.advance();
                return Ok(None);
            },
            Some(Token::Data(n)) => self.parse_num(Token::Data(*n)),
            Some(Token::Keyword(Keyword::Out)) => self.parse_num(Token::Keyword(Keyword::Out)),
            Some(_) => {
                return Err(self.fail(other));
            },
        };
        match parsed {
            Ok(Some(node)) => Ok(Some(node)),
            Ok(None) => Err(self.fail(other)),
            Err(e) => Err(e),
        }
    }

    /// Parses the statement whose `think` is under the cursor.
    pub fn parse_think(&mut self) -> (r: Result<Option<Node>, ParseError>)
        requires
            old(self).wf(),
        ensures
            final(self).follows(old(self)),
            match r {
                Ok(node) => think_spec(old(self).stream(), old(self).pos as int) == Ok::<
                    (Option<NodeView>, int),
                    ParseErrorKind,
                >((option_view(node), final(self).pos as int)) && old(self).pos < final(self).pos,
                Err(e) => think_spec(old(self).stream(), old(self).pos as int) == Err::<
                    (Option<NodeView>, int),
                    ParseErrorKind,
                >(e.kind) && e.index == old(self).expr,
            },
    {
        match self.parse_operand(ParseErrorKind::ThinkNothing, ParseErrorKind::ThinkOperand) {
            Ok(Some(operand)) => {
                let ghost inner = operand@;
                let node = Node::Think(Box::new(operand));
                assert(node@ == NodeView::Think(Box::new(inner)));
                Ok(Some(node))
            },
            Ok(None) => Ok(None),
            Err(e) => Err(e),
        }
    }

    /// Parses the statement whose `print` is under the cursor.
    pub fn parse_print(&mut self) -> (r: Result<Option<Node>, ParseError>)
        requires
            old(self).wf(),
        ensures
            final(self).follows(old(self)),
            match r {
                Ok(node) => print_spec(old(self).stream(), old(self).pos as int) == Ok::<
                    (Option<NodeView>, int),
                    ParseErrorKind,
                >((option_view(node), final(self).pos as int)) && old(self).pos < final(self).pos,
                Err(e) => print_spec(old(self).stream(), old(self).pos as int) == Err::<
                    (Option<NodeView>, int),
                    ParseErrorKind,
                >(e.kind) && e.index == old(self).expr,
            },
    {
        match self.parse_operand(ParseErrorKind::PrintNothing, ParseErrorKind::PrintOperand) {
            Ok(Some(operand)) => {
                let ghost inner = operand@;
                let node = Node::Print(Box::new(operand));
                assert(node@ == NodeView::Print(Box::new(inner)));
                Ok(Some(node))
            },
            Ok(None) => Ok(None),
            Err(e) => Err(e),
        }
    }

    /// Parses what follows `run` or `spawn` under the cursor: the end of the
    /// line, or the name of a macro.
    pub fn parse_macro_name(&mut self) -> (r: Result<Option<String>, ParseError>)
        requires
            old(self).wf(),
        ensures
            final(self).follows(old(self)),
            match r {
                Ok(name) => macro_name_spec(old(self).stream(), old(self).pos as int) == Ok::<
                    (Option<Seq<char>>, int),
                    ParseErrorKind,
                >((name_view(name), final(self).pos as int)) && old(self).pos < final(self).pos,
                Err(e) => macro_name_spec(old(self).stream(), old(self).pos as int) == Err::<
                    (Option<Seq<char>>, int),
                    ParseErrorKind,
                >(e.kind) && e.index == old(self).expr,
            },
    {
        self.advance();
        match self.peek() {
            None => Err(self.fail(ParseErrorKind::MissingMacroName)),
            Some(Token::NewLine) => {
                self.advance();
                Ok(None)
            },
            Some(Token::RTKeyword(s)) => {
                let name = s.clone();
                self.advance();
                Ok(Some(name))
            },
            Some(Token::Keyword(_)) => Err(self.fail(ParseErrorKind::ReservedMacroName)),
            Some(Token::Data(_)) => Err(self.fail(ParseErrorKind::MacroNameIsData)),
            Some(_) => Err(self.fail(ParseErrorKind::MissingMacroName)),
        }
    }

    /// Parses the statement whose `run` is under the cursor.
    pub fn parse_run(&mut self) -> (r: Result<Option<Node>, ParseError>)
        requires
            old(self).wf(),
        ensures
            final(self).follows(old(self)),
            match r {
                Ok(node) => run_spec(old(self).stream(), old(self).pos as int) == Ok::<
                    (Option<NodeView>, int),
                    ParseErrorKind,
                >((option_view(node), final(self).pos as int)) && old(self).pos < final(self).pos,
                Err(e) => run_spec(old(self).stream(), old(self).pos as int) == Err::<
                    (Option<NodeView>, int),
                    ParseErrorKind,
                >(e.kind) && e.index == old(self).expr,
            },
    {
        match self.parse_macro_name() {
            Ok(Some(name)) => Ok(Some(Node::Run(name))),
            Ok(None) => Ok(None),
            Err(e) => Err(e),
        }
    }

    /// Parses the statement whose `spawn` is under the cursor.
    pub fn parse_spawn(&mut self) -> (r: Result<Option<Node>, ParseError>)
        requires
            old(self).wf(),
        ensures
            final(self).follows(old(self)),
            match r {
                Ok(node) => spawn_spec(old(self).stream(), old(self).pos as int) == Ok::<
                    (Option<NodeView>, int),
                    ParseErrorKind,
                >((option_view(node), final(self).pos as int)) && old(self).pos < final(self).pos,
                Err(e) => spawn_spec(old(self).stream(), old(self).pos as int) == Err::<
                    (Option<NodeView>, int),
                    ParseErrorKind,
                >(e.kind) && e.index == old(self).expr,
            },
    {
        match self.parse_macro_name() {
            Ok(Some(name)) => Ok(Some(Node::Spawn(name))),
            Ok(None) => Ok(None),
            Err(e) => Err(e),
        }
    }
}

} // verus!
