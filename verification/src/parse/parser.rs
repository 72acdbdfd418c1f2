//! The parser: a cursor over the tokens, and the statements of a program.

use crate::parse::grammar::{macros_of, newline_run, nodes_of, statement_spec, units_spec, UnitView};
use crate::parse::macros::MacroTable;
use crate::parse::node::{node_views, Node, NodeView};
use crate::parse::{ExprType, ParserResult};
use crate::tokenize::token::{token_views, Token, TokenView};
use crate::util::err::{ParseError, ParseErrorKind};
use crate::util::types::Keyword;
use vstd::prelude::*;

verus! {

/// A parser over a sequence of tokens.
pub struct Parser<'t> {
    /// The tokens that the parser reads.
    pub tokens: &'t Vec<Token>,
    /// The index of the token that comes next.
    pub pos: usize,
    /// The index of the top-level statement that is being parsed.
    pub expr: usize,
    /// Whether the caller wants the steps of the parser traced.
    pub log: bool,
}

impl<'t> Parser<'t> {
    /// The tokens that the parser reads, as views.
    pub open spec fn stream(&self) -> Seq<TokenView> {
        token_views(self.tokens@)
    }

    /// The cursor stands on a token or just behind the last one.
    pub open spec fn wf(&self) -> bool {
        self.pos <= self.stream().len()
    }

    /// Whether the parser reads the same tokens, for the same statement and
    /// caller, as another.
    pub open spec fn follows(&self, before: &Self) -> bool {
        &&& self.wf()
        &&& self.stream() == before.stream()
        &&& self.expr == before.expr
        &&& self.log == before.log
    }

    pub fn new(tokens: &'t Vec<Token>, log: bool) -> (r: Self)
        ensures
            r.wf(),
            r.stream() == token_views(tokens@),
            r.pos == 0,
            r.expr == 0,
            r.log == log,
    {
        Self { tokens, pos: 0, expr: 0, log }
    }

    /// The token under the cursor, if there is one.
    pub fn peek(&self) -> (r: Option<&'t Token>)
        ensures
            match r {
                Some(token) => self.pos < self.stream().len() && token@
                    == self.stream()[self.pos as int],
                None => self.pos >= self.stream().len(),
            },
    {
        if self.pos < self.tokens.len() {
            Some(&self.tokens[self.pos])
        } else {
            None
        }
    }

    /// Moves the cursor one token on, unless it is behind the last token, and
    /// gives the token that is then under it.
    pub fn advance(&mut self) -> (r: Option<&'t Token>)
        requires
            old(self).wf(),
        ensures
            final(self).follows(old(self)),
            final(self).pos == if old(self).pos < old(self).stream().len() {
                old(self).pos + 1
            } else {
                old(self).pos as int
            },
            match r {
                Some(token) => final(self).pos < final(self).stream().len() && token@
                    == final(self).stream()[final(self).pos as int],
                None => final(self).pos == final(self).stream().len(),
            },
    {
        if self.pos < self.tokens.len() {
            self.pos += 1;
        }
        self.peek()
    }

    /// Moves the cursor one token back, and gives the token that is then
    /// under it.
    pub fn undo(&mut self) -> (r: Option<&'t Token>)
        requires
            old(self).wf(),
            old(self).pos > 0,
        ensures
            final(self).follows(old(self)),
            final(self).pos == old(self).pos - 1,
            match r {
                Some(token) => final(self).pos < final(self).stream().len() && token@
                    == final(self).stream()[final(self).pos as int],
                None => false,
            },
    {
        self.pos -= 1;
        self.peek()
    }

    /// An error of a kind, at the statement that is being parsed.
    pub fn fail(&self, kind: ParseErrorKind) -> (r: ParseError)
        ensures
            r.kind == kind,
            r.index == self.expr,
    {
        ParseError { kind, index: self.expr }
    }

    /// Moves the cursor over the ends of lines under it.
    pub fn skip_newlines(&mut self)
        requires
            old(self).wf(),
        ensures
            final(self).follows(old(self)),
            final(self).pos == old(self).pos + newline_run(old(self).stream(), old(self).pos as int),
    {
        while self.pos < self.tokens.len() && matches!(self.tokens[self.pos], Token::NewLine)
            invariant
                self.follows(old(self)),
                self.pos >= old(self).pos,
                old(self).pos + newline_run(old(self).stream(), old(self).pos as int) == self.pos
                    + newline_run(self.stream(), self.pos as int),
            decreases self.tokens.len() - self.pos,
        {
            self.pos += 1;
        }
    }

    /// Parses the next statement, behind any ends of lines under the cursor.
    /// `None` where no token is left.
    pub fn parse_expression(&mut self) -> (r: Result<Option<ExprType>, ParseError>)
        requires
            old(self).wf(),
        ensures
            final(self).follows(old(self)),
            match r {
                Ok(Some(unit)) => statement_spec(old(self).stream(), old(self).pos as int) == Ok::<
                    Option<(UnitView, int)>,
                    ParseErrorKind,
                >(Some((unit@, final(self).pos as int))) && old(self).pos < final(self).pos,
                Ok(None) => statement_spec(old(self).stream(), old(self).pos as int) == Ok::<
                    Option<(UnitView, int)>,
                    ParseErrorKind,
                >(None) && final(self).pos == final(self).stream().len(),
                Err(e) => statement_spec(old(self).stream(), old(self).pos as int) == Err::<
                    Option<(UnitView, int)>,
                    ParseErrorKind,
                >(e.kind) && e.index == old(self).expr,
            },
        decreases old(self).stream().len() - old(self).pos, 1int,
    {
        self.skip_newlines();
        let token = match self.peek() {
            Some(token) => token,
            None => {
                return Ok(None);
            },
        };
        let unit = match token {
            Token::Keyword(k) => match k {
                Keyword::Think => ExprType::Node(self.parse_think()?),
                Keyword::In => {
                    return Err(self.fail(ParseErrorKind::InWithoutIndex));
                },
                Keyword::Out => ExprType::Node(self.parse_num_head()?),
                Keyword::Print => ExprType::Node(self.parse_print()?),
                Keyword::If => ExprType::Node(self.parse_if()?),
                Keyword::Loop => ExprType::Node(self.parse_loop()?),
                Keyword::Run => ExprType::Node(self.parse_run()?),
                Keyword::Define => ExprType::Macro(self.parse_def()?),
                Keyword::Break => {
                    self.advance();
                    ExprType::Node(Some(Node::Break))
                },
                Keyword::Spawn => ExprType::Node(self.parse_spawn()?),
                _ => {
                    return Err(self.fail(ParseErrorKind::UnexpectedKeyword));
                },
            },
            Token::Data(_) => ExprType::Node(self.parse_num_head()?),
            Token::OpToken(o) => {
                return Err(self.fail(ParseErrorKind::UnexpectedOperator(*o)));
            },
            _ => {
                return Err(self.fail(ParseErrorKind::UnexpectedToken));
            },
        };
        Ok(Some(unit))
    }

    /// Parses the statements from the cursor to the end of the tokens. The
    /// nodes to execute are kept in their order; each macro definition goes
    /// into the table, where it replaces an earlier one of the same name.
    /// Stops at the first error, which names the index of its statement.
    pub fn parse(&mut self) -> (r: Result<ParserResult, ParseError>)
        requires
            old(self).wf(),
            old(self).expr <= old(self).pos,
        ensures
            final(self).wf(),
            final(self).stream() == old(self).stream(),
            match r {
                Ok(program) => {
                    let units = units_spec(
                        old(self).stream(),
                        old(self).pos as int,
                        old(self).expr as nat,
                    );
                    &&& units is Ok
                    &&& node_views(program.nodes@) == nodes_of(units->Ok_0)
                    &&& program.table() == macros_of(units->Ok_0)
                    &&& program.macros is None <==> macros_of(units->Ok_0) == Map::<
                        Seq<char>,
                        Seq<NodeView>,
                    >::empty()
                    &&& final(self).expr == old(self).expr + units->Ok_0.len()
                    &&& final(self).pos == final(self).stream().len()
                },
                Err(e) => units_spec(
                    old(self).stream(),
                    old(self).pos as int,
                    old(self).expr as nat,
                ) == Err::<Seq<UnitView>, (ParseErrorKind, nat)>((e.kind, e.index as nat))
                    && final(self).expr == e.index,
            },
    {
        let ghost tokens = self.stream();
        let ghost whole = units_spec(tokens, self.pos as int, self.expr as nat);
        let ghost seen: Seq<UnitView> = Seq::empty();
        let mut nodes: Vec<Node> = Vec::new();
        let mut macros = MacroTable::new();
        proof {
            assert(node_views(nodes@) =~= Seq::empty());
            match whole {
                Ok(more) => {
                    assert(Seq::<UnitView>::empty() + more =~= more);
                },
                Err(_) => {},
            }
        }
        loop
            invariant
                self.wf(),
                tokens == self.stream(),
                tokens == old(self).stream(),
                self.expr <= self.pos,
                self.expr == old(self).expr + seen.len(),
                whole == units_spec(tokens, old(self).pos as int, old(self).expr as nat),
                whole == units_then(seen, units_spec(tokens, self.pos as int, self.expr as nat)),
                node_views(nodes@) == nodes_of(seen),
                macros@ == macros_of(seen),
            decreases tokens.len() - self.pos,
        {
            let ghost rest = units_spec(tokens, self.pos as int, self.expr as nat);
            match self.parse_expression() {
                Ok(Some(unit)) => {
                    proof {
                        let next = units_spec(tokens, self.pos as int, (self.expr + 1) as nat);
                        match next {
                            Ok(more) => {
                                assert(seen.push(unit@) + more =~= seen + (seq![unit@] + more));
                            },
                            Err(_) => {},
                        }
                        assert(seen.push(unit@).drop_last() =~= seen);
                        seen = seen.push(unit@);
                    }
                    match unit {
                        ExprType::Node(Some(node)) => {
                            proof {
                                assert(node_views(nodes@.push(node)) =~= node_views(nodes@).push(
                                    node@,
                                ));
                            }
                            nodes.push(node);
                        },
                        ExprType::Macro((name, body)) => {
                            macros.insert(name, body);
                        },
                        ExprType::Node(None) => {},
                    }
                    self.expr += 1;
                },
                Ok(None) => {
                    proof {
                        assert(seen + Seq::<UnitView>::empty() =~= seen);
                    }
                    let table = if macros.is_empty() {
                        None
                    } else {
                        Some(macros)
                    };
                    return Ok(ParserResult { nodes, macros: table });
                },
                Err(e) => {
                    return Err(e);
                },
            }
        }
    }
}

/// Statements before the statements of the rest, or the error of the rest.
pub open spec fn units_then(
    units: Seq<UnitView>,
    rest: Result<Seq<UnitView>, (ParseErrorKind, nat)>,
) -> Result<Seq<UnitView>, (ParseErrorKind, nat)> {
    match rest {
        Ok(more) => Ok(units + more),
        Err(e) => Err(e),
    }
}

} // verus!
