//! The grammar of the language, as functions from a sequence of tokens and a
//! position to what stands there and the position behind it.
//!
//! ```text
//! program    := { NewLine } { statement { NewLine } }
//! statement  := "think" operand | "print" operand
//!             | "if" expr block | "loop" block | "define" Name block
//!             | "run" name | "spawn" name | "break"
//!             | expr ( NewLine | "in" expr | read )
//! operand    := NewLine | expr
//! name       := NewLine | Name
//! block      := "{" { NewLine | "{" | "}" | statement } "}"
//! expr       := primary [ Operator expr ] [ "char" ]
//! primary    := Number | read
//! read       := "out" ( Number | read )
//! ```
//!
//! A block ends with the brace that closes its first one; braces inside it
//! that belong to no statement only have to balance.

use crate::parse::node::NodeView;
use crate::tokenize::token::TokenView;
use crate::util::err::{Block, ParseErrorKind};
use crate::util::types::{Keyword, Number, Operator};
use vstd::prelude::*;

verus! {

/// What one statement parses to: a node to execute, nothing at all (a
/// statement without an operand), or the name and body of a macro.
pub enum UnitView {
    Node(Option<NodeView>),
    Macro(Seq<char>, Seq<NodeView>),
}

/// Whether a token can start an expression.
pub open spec fn starts_expr(token: TokenView) -> bool {
    token is Data || token == TokenView::Keyword(Keyword::Out)
}

/// The memory read whose `out` stands at `pos`, and the position behind it.
pub open spec fn read_spec(tokens: Seq<TokenView>, pos: int) -> Result<(NodeView, int), ParseErrorKind>
    decreases tokens.len() - pos,
{
    let next = pos + 1;
    if pos < 0 || next >= tokens.len() {
        Err(ParseErrorKind::MissingIndex)
    } else {
        match tokens[next] {
            TokenView::Data(n) => Ok((NodeView::Out(Box::new(NodeView::Literal(n))), next + 1)),
            TokenView::Keyword(Keyword::Out) => match read_spec(tokens, next) {
                Ok((inner, end)) => Ok((NodeView::Out(Box::new(inner)), end)),
                Err(e) => Err(e),
            },
            _ => Err(ParseErrorKind::BadIndex),
        }
    }
}

/// A memory read ends behind its `out` and its index, within the tokens.
pub proof fn read_bounds(tokens: Seq<TokenView>, pos: int)
    ensures
        read_spec(tokens, pos) is Ok ==> pos + 1 < read_spec(tokens, pos)->Ok_0.1 <= tokens.len(),
    decreases tokens.len() - pos,
{
    let next = pos + 1;
    if 0 <= pos && next < tokens.len() {
        if tokens[next] == TokenView::Keyword(Keyword::Out) {
            read_bounds(tokens, next);
        }
    }
}

/// The primary that starts with the token `head` at `pos`: a number, or a
/// memory read.
pub open spec fn primary_spec(head: TokenView, tokens: Seq<TokenView>, pos: int) -> Result<
    (NodeView, int),
    ParseErrorKind,
> {
    match head {
        TokenView::Data(n) => Ok((NodeView::Literal(n), pos + 1)),
        TokenView::Keyword(Keyword::Out) => read_spec(tokens, pos),
        _ => Err(ParseErrorKind::NotANumber),
    }
}

/// A node, wrapped as a character where `char` stands at `pos`.
pub open spec fn cast_spec(node: NodeView, tokens: Seq<TokenView>, pos: int) -> (NodeView, int) {
    if 0 <= pos < tokens.len() && tokens[pos] == TokenView::Keyword(Keyword::Char) {
        (NodeView::Char(Box::new(node)), pos + 1)
    } else {
        (node, pos)
    }
}

/// The expression that starts with the token `head` at `pos`, and the
/// position behind it. An operator takes the whole expression behind it as
/// its right operand, so operators group to the right.
pub open spec fn expr_spec(head: TokenView, tokens: Seq<TokenView>, pos: int) -> Result<
    (NodeView, int),
    ParseErrorKind,
>
    decreases tokens.len() - pos,
{
    if pos < 0 || pos >= tokens.len() {
        Err(ParseErrorKind::NotANumber)
    } else {
        match primary_spec(head, tokens, pos) {
            Err(e) => Err(e),
            Ok((left, p)) => {
                proof {
                    read_bounds(tokens, pos);
                }
                if p < tokens.len() && tokens[p] is OpToken {
                    let q = p + 1;
                    if q < tokens.len() && starts_expr(tokens[q]) {
                        match expr_spec(tokens[q], tokens, q) {
                            Ok((right, end)) => Ok(
                                cast_spec(
                                    NodeView::Eval(
                                        Box::new(left),
                                        tokens[p]->OpToken_0,
                                        Box::new(right),
                                    ),
                                    tokens,
                                    end,
                                ),
                            ),
                            Err(e) => Err(e),
                        }
                    } else {
                        Err(ParseErrorKind::MissingOperand)
                    }
                } else {
                    Ok(cast_spec(left, tokens, p))
                }
            },
        }
    }
}

/// An expression ends behind its first token, within the tokens.
pub proof fn expr_bounds(head: TokenView, tokens: Seq<TokenView>, pos: int)
    ensures
        expr_spec(head, tokens, pos) is Ok ==> pos < expr_spec(head, tokens, pos)->Ok_0.1
            <= tokens.len(),
    decreases tokens.len() - pos,
{
    if 0 <= pos < tokens.len() {
        read_bounds(tokens, pos);
        match primary_spec(head, tokens, pos) {
            Err(_) => {},
            Ok((left, p)) => {
                if p < tokens.len() && tokens[p] is OpToken {
                    let q = p + 1;
                    if q < tokens.len() && starts_expr(tokens[q]) {
                        expr_bounds(tokens[q], tokens, q);
                    }
                }
            },
        }
    }
}

/// What follows `think` or `print` at `pos`: the end of the line, for a
/// statement that does nothing, or an expression.
pub open spec fn operand_spec(
    tokens: Seq<TokenView>,
    pos: int,
    nothing: ParseErrorKind,
    other: ParseErrorKind,
) -> Result<(Option<NodeView>, int), ParseErrorKind> {
    let next = pos + 1;
    if pos < 0 || next >= tokens.len() {
        Err(nothing)
    } else if tokens[next] == TokenView::NewLine {
        Ok((None, next + 1))
    } else if starts_expr(tokens[next]) {
        match expr_spec(tokens[next], tokens, next) {
            Ok((node, end)) => Ok((Some(node), end)),
            Err(e) => Err(e),
        }
    } else {
        Err(other)
    }
}

/// The statement whose `think` stands at `pos`.
pub open spec fn think_spec(tokens: Seq<TokenView>, pos: int) -> Result<
    (Option<NodeView>, int),
    ParseErrorKind,
> {
    match operand_spec(tokens, pos, ParseErrorKind::ThinkNothing, ParseErrorKind::ThinkOperand) {
        Ok((Some(node), end)) => Ok((Some(NodeView::Think(Box::new(node))), end)),
        Ok((None, end)) => Ok((None, end)),
        Err(e) => Err(e),
    }
}

/// The statement whose `print` stands at `pos`.
pub open spec fn print_spec(tokens: Seq<TokenView>, pos: int) -> Result<
    (Option<NodeView>, int),
    ParseErrorKind,
> {
    match operand_spec(tokens, pos, ParseErrorKind::PrintNothing, ParseErrorKind::PrintOperand) {
        Ok((Some(node), end)) => Ok((Some(NodeView::Print(Box::new(node))), end)),
        Ok((None, end)) => Ok((None, end)),
        Err(e) => Err(e),
    }
}

/// The name that follows `run` or `spawn` at `pos`, or nothing where the line
/// ends there.
pub open spec fn macro_name_spec(tokens: Seq<TokenView>, pos: int) -> Result<
    (Option<Seq<char>>, int),
    ParseErrorKind,
> {
    let next = pos + 1;
    if pos < 0 || next >= tokens.len() {
        Err(ParseErrorKind::MissingMacroName)
    } else {
        match tokens[next] {
            TokenView::NewLine => Ok((None, next + 1)),
            TokenView::RTKeyword(name) => Ok((Some(name), next + 1)),
            TokenView::Keyword(_) => Err(ParseErrorKind::ReservedMacroName),
            TokenView::Data(_) => Err(ParseErrorKind::MacroNameIsData),
            _ => Err(ParseErrorKind::MissingMacroName),
        }
    }
}

/// The statement whose `run` stands at `pos`.
pub open spec fn run_spec(tokens: Seq<TokenView>, pos: int) -> Result<
    (Option<NodeView>, int),
    ParseErrorKind,
> {
    match macro_name_spec(tokens, pos) {
        Ok((Some(name), end)) => Ok((Some(NodeView::Run(name)), end)),
        Ok((None, end)) => Ok((None, end)),
        Err(e) => Err(e),
    }
}

/// The statement whose `spawn` stands at `pos`.
pub open spec fn spawn_spec(tokens: Seq<TokenView>, pos: int) -> Result<
    (Option<NodeView>, int),
    ParseErrorKind,
> {
    match macro_name_spec(tokens, pos) {
        Ok((Some(name), end)) => Ok((Some(NodeView::Spawn(name)), end)),
        Ok((None, end)) => Ok((None, end)),
        Err(e) => Err(e),
    }
}

/// The statement that starts with an expression at `pos`: the expression
/// alone before the end of a line, an assignment to the memory at the index
/// that the expression gives, or a memory read behind it.
pub open spec fn head_spec(tokens: Seq<TokenView>, pos: int) -> Result<
    (Option<NodeView>, int),
    ParseErrorKind,
> {
    if pos < 0 || pos >= tokens.len() {
        Err(ParseErrorKind::NotANumber)
    } else {
        match expr_spec(tokens[pos], tokens, pos) {
            Err(e) => Err(e),
            Ok((head, p)) => {
                if p < 0 || p >= tokens.len() {
                    Err(ParseErrorKind::LoneNumber)
                } else {
                    match tokens[p] {
                        TokenView::NewLine => Ok((Some(head), p + 1)),
                        TokenView::Keyword(Keyword::In) => {
                            let q = p + 1;
                            if q >= tokens.len() {
                                Err(ParseErrorKind::AssignNothing)
                            } else {
                                match expr_spec(tokens[q], tokens, q) {
                                    Ok((value, end)) => Ok(
                                        (
                                            Some(
                                                NodeView::Assign(Box::new(head), Box::new(value)),
                                            ),
                                            end,
                                        ),
                                    ),
                                    Err(e) => Err(e),
                                }
                            }
                        },
                        TokenView::Keyword(Keyword::Out) => match read_spec(tokens, p) {
                            Ok((read, end)) => Ok((Some(NodeView::Out(Box::new(read))), end)),
                            Err(e) => Err(e),
                        },
                        _ => Err(ParseErrorKind::BadFollower),
                    }
                }
            },
        }
    }
}

/// A node, if there is one, before the nodes of the rest of a block.
pub open spec fn node_then(
    node: Option<NodeView>,
    rest: Result<(Seq<NodeView>, int), ParseErrorKind>,
) -> Result<(Seq<NodeView>, int), ParseErrorKind> {
    match rest {
        Ok((nodes, end)) => match node {
            Some(n) => Ok((seq![n] + nodes, end)),
            None => Ok((nodes, end)),
        },
        Err(e) => Err(e),
    }
}

/// The statement that starts at `pos`, where a token stands, and the position
/// behind it.
pub open spec fn statement_at(tokens: Seq<TokenView>, pos: int) -> Result<
    (UnitView, int),
    ParseErrorKind,
>
    decreases tokens.len() - pos, 1int,
{
    if pos < 0 || pos >= tokens.len() {
        Err(ParseErrorKind::UnexpectedToken)
    } else {
        match tokens[pos] {
            TokenView::Keyword(Keyword::Think) => unit_of(think_spec(tokens, pos)),
            TokenView::Keyword(Keyword::Print) => unit_of(print_spec(tokens, pos)),
            TokenView::Keyword(Keyword::Run) => unit_of(run_spec(tokens, pos)),
            TokenView::Keyword(Keyword::Spawn) => unit_of(spawn_spec(tokens, pos)),
            TokenView::Keyword(Keyword::If) => unit_of(if_spec(tokens, pos)),
            TokenView::Keyword(Keyword::Loop) => unit_of(loop_spec(tokens, pos)),
            TokenView::Keyword(Keyword::Define) => match define_spec(tokens, pos) {
                Ok(((name, body), end)) => Ok((UnitView::Macro(name, body), end)),
                Err(e) => Err(e),
            },
            TokenView::Keyword(Keyword::Break) => Ok(
                (UnitView::Node(Some(NodeView::Break)), pos + 1),
            ),
            TokenView::Keyword(Keyword::In) => Err(ParseErrorKind::InWithoutIndex),
            TokenView::Keyword(Keyword::Out) => unit_of(head_spec(tokens, pos)),
            TokenView::Keyword(_) => Err(ParseErrorKind::UnexpectedKeyword),
            TokenView::Data(_) => unit_of(head_spec(tokens, pos)),
            TokenView::OpToken(o) => Err(ParseErrorKind::UnexpectedOperator(o)),
            _ => Err(ParseErrorKind::UnexpectedToken),
        }
    }
}

/// A statement that is a node or nothing, as a unit.
pub open spec fn unit_of(r: Result<(Option<NodeView>, int), ParseErrorKind>) -> Result<
    (UnitView, int),
    ParseErrorKind,
> {
    match r {
        Ok((node, end)) => Ok((UnitView::Node(node), end)),
        Err(e) => Err(e),
    }
}

/// The statement whose `if` stands at `pos`.
pub open spec fn if_spec(tokens: Seq<TokenView>, pos: int) -> Result<
    (Option<NodeView>, int),
    ParseErrorKind,
>
    decreases tokens.len() - pos, 0int,
{
    let next = pos + 1;
    if pos < 0 || next >= tokens.len() || !starts_expr(tokens[next]) {
        Err(ParseErrorKind::IfCondition)
    } else {
        match expr_spec(tokens[next], tokens, next) {
            Err(e) => Err(e),
            Ok((cond, p)) => {
                proof {
                    expr_bounds(tokens[next], tokens, next);
                }
                if p < tokens.len() && tokens[p] == TokenView::OpenBrace {
                    match block_spec(tokens, p + 1, 1, Block::If) {
                        Ok((body, end)) => Ok((Some(NodeView::If(Box::new(cond), body)), end)),
                        Err(e) => Err(e),
                    }
                } else {
                    Err(ParseErrorKind::ExpectedOpenBrace(Block::If))
                }
            },
        }
    }
}

/// The statement whose `loop` stands at `pos`.
pub open spec fn loop_spec(tokens: Seq<TokenView>, pos: int) -> Result<
    (Option<NodeView>, int),
    ParseErrorKind,
>
    decreases tokens.len() - pos, 0int,
{
    let next = pos + 1;
    if 0 <= pos && next < tokens.len() && tokens[next] == TokenView::OpenBrace {
        match block_spec(tokens, next + 1, 1, Block::Loop) {
            Ok((body, end)) => Ok((Some(NodeView::Loop(body)), end)),
            Err(e) => Err(e),
        }
    } else {
        Err(ParseErrorKind::ExpectedOpenBrace(Block::Loop))
    }
}

/// The macro definition whose `define` stands at `pos`: its name and body.
pub open spec fn define_spec(tokens: Seq<TokenView>, pos: int) -> Result<
    ((Seq<char>, Seq<NodeView>), int),
    ParseErrorKind,
>
    decreases tokens.len() - pos, 0int,
{
    let next = pos + 1;
    if pos < 0 || next >= tokens.len() || !(tokens[next] is RTKeyword) {
        Err(ParseErrorKind::DefineName)
    } else {
        let brace = next + 1;
        if brace < tokens.len() && tokens[brace] == TokenView::OpenBrace {
            match block_spec(tokens, brace + 1, 1, Block::Define) {
                Ok((body, end)) => Ok(((tokens[next]->RTKeyword_0, body), end)),
                Err(e) => Err(e),
            }
        } else {
            Err(ParseErrorKind::ExpectedOpenBrace(Block::Define))
        }
    }
}

/// The statements of a block from `pos` to the brace that closes it, with
/// `depth` braces open, and the position behind that brace.
///
/// The test that a statement ends behind its first token only shows that
/// the definition is well-founded: it always holds (`statement_bounds`).
pub open spec fn block_spec(tokens: Seq<TokenView>, pos: int, depth: nat, block: Block) -> Result<
    (Seq<NodeView>, int),
    ParseErrorKind,
>
    decreases tokens.len() - pos, 2int,
{
    if pos < 0 || pos >= tokens.len() {
        Err(ParseErrorKind::MismatchedBraces(block))
    } else {
        match tokens[pos] {
            TokenView::OpenBrace => block_spec(tokens, pos + 1, depth + 1, block),
            TokenView::CloseBrace => if depth <= 1 {
                Ok((Seq::empty(), pos + 1))
            } else {
                block_spec(tokens, pos + 1, (depth - 1) as nat, block)
            },
            TokenView::NewLine => block_spec(tokens, pos + 1, depth, block),
            _ => match statement_at(tokens, pos) {
                Err(e) => Err(e),
                Ok((UnitView::Macro(_, _), _)) => Err(ParseErrorKind::NestedMacro(block)),
                Ok((UnitView::Node(node), next)) => if pos < next <= tokens.len() {
                    node_then(node, block_spec(tokens, next, depth, block))
                } else {
                    Err(ParseErrorKind::MismatchedBraces(block))
                },
            },
        }
    }
}

/// How many tokens from `pos` on are ends of lines.
pub open spec fn newline_run(tokens: Seq<TokenView>, pos: int) -> nat
    decreases tokens.len() - pos,
{
    if 0 <= pos < tokens.len() && tokens[pos] == TokenView::NewLine {
        1 + newline_run(tokens, pos + 1)
    } else {
        0
    }
}

/// The next statement from `pos` on, behind any ends of lines, and the
/// position behind it; `None` where no token is left.
pub open spec fn statement_spec(tokens: Seq<TokenView>, pos: int) -> Result<
    Option<(UnitView, int)>,
    ParseErrorKind,
> {
    let start = pos + newline_run(tokens, pos);
    if pos < 0 || start >= tokens.len() {
        Ok(None)
    } else {
        match statement_at(tokens, start) {
            Ok(found) => Ok(Some(found)),
            Err(e) => Err(e),
        }
    }
}

/// The statements from `pos` to the end of the tokens, where the next one has
/// the index `index`; or the first error with the index of its statement.
///
/// The test that a statement ends behind its first token only shows that
/// the definition is well-founded: it always holds (`statement_bounds`).
pub open spec fn units_spec(tokens: Seq<TokenView>, pos: int, index: nat) -> Result<
    Seq<UnitView>,
    (ParseErrorKind, nat),
>
    decreases tokens.len() - pos,
{
    match statement_spec(tokens, pos) {
        Err(kind) => Err((kind, index)),
        Ok(None) => Ok(Seq::empty()),
        Ok(Some((unit, next))) => if pos < next <= tokens.len() {
            match units_spec(tokens, next, index + 1) {
                Ok(rest) => Ok(seq![unit] + rest),
                Err(e) => Err(e),
            }
        } else {
            Ok(seq![unit])
        },
    }
}

/// The nodes to execute among the statements, in their order.
pub open spec fn nodes_of(units: Seq<UnitView>) -> Seq<NodeView>
    decreases units.len(),
{
    if units.len() == 0 {
        Seq::empty()
    } else {
        match units.last() {
            UnitView::Node(Some(node)) => nodes_of(units.drop_last()).push(node),
            _ => nodes_of(units.drop_last()),
        }
    }
}

/// The macros that the statements define; a later definition of a name
/// replaces an earlier one.
pub open spec fn macros_of(units: Seq<UnitView>) -> Map<Seq<char>, Seq<NodeView>>
    decreases units.len(),
{
    if units.len() == 0 {
        Map::empty()
    } else {
        match units.last() {
            UnitView::Macro(name, body) => macros_of(units.drop_last()).insert(name, body),
            _ => macros_of(units.drop_last()),
        }
    }
}

/// How many of the statements are macro definitions.
pub open spec fn definitions(units: Seq<UnitView>) -> nat
    decreases units.len(),
{
    if units.len() == 0 {
        0
    } else if units.last() is Macro {
        definitions(units.drop_last()) + 1
    } else {
        definitions(units.drop_last())
    }
}

/// How many of the statements are empty: a keyword without an operand.
pub open spec fn blanks(units: Seq<UnitView>) -> nat
    decreases units.len(),
{
    if units.len() == 0 {
        0
    } else if units.last() == UnitView::Node(None) {
        blanks(units.drop_last()) + 1
    } else {
        blanks(units.drop_last())
    }
}

/// A program has as many nodes to execute as it has statements that are
/// neither macro definitions nor empty.
pub proof fn nodes_count(units: Seq<UnitView>)
    ensures
        nodes_of(units).len() + definitions(units) + blanks(units) == units.len(),
    decreases units.len(),
{
    if units.len() > 0 {
        nodes_count(units.drop_last());
    }
}

/// A statement ends behind its first token, within the tokens.
pub proof fn statement_bounds(tokens: Seq<TokenView>, pos: int)
    ensures
        statement_at(tokens, pos) is Ok ==> pos < statement_at(tokens, pos)->Ok_0.1
            <= tokens.len(),
    decreases tokens.len() - pos, 1int,
{
    if 0 <= pos < tokens.len() {
        let next = pos + 1;
        if next < tokens.len() {
            expr_bounds(tokens[next], tokens, next);
        }
        expr_bounds(tokens[pos], tokens, pos);
        match tokens[pos] {
            TokenView::Keyword(Keyword::If) => {
                if next < tokens.len() && starts_expr(tokens[next]) {
                    match expr_spec(tokens[next], tokens, next) {
                        Ok((_, p)) => {
                            if p < tokens.len() && tokens[p] == TokenView::OpenBrace {
                                block_bounds(tokens, p + 1, 1, Block::If);
                            }
                        },
                        Err(_) => {},
                    }
                }
            },
            TokenView::Keyword(Keyword::Loop) => {
                if next < tokens.len() && tokens[next] == TokenView::OpenBrace {
                    block_bounds(tokens, next + 1, 1, Block::Loop);
                }
            },
            TokenView::Keyword(Keyword::Define) => {
                let brace = next + 1;
                if brace < tokens.len() && tokens[brace] == TokenView::OpenBrace {
                    block_bounds(tokens, brace + 1, 1, Block::Define);
                }
            },
            TokenView::Keyword(Keyword::Out) | TokenView::Data(_) => {
                match expr_spec(tokens[pos], tokens, pos) {
                    Ok((_, p)) => {
                        if 0 <= p < tokens.len() {
                            read_bounds(tokens, p);
                            if p + 1 < tokens.len() {
                                expr_bounds(tokens[p + 1], tokens, p + 1);
                            }
                        }
                    },
                    Err(_) => {},
                }
            },
            _ => {},
        }
    }
}

/// A block ends behind the position where it starts, within the tokens.
pub proof fn block_bounds(tokens: Seq<TokenView>, pos: int, depth: nat, block: Block)
    ensures
        block_spec(tokens, pos, depth, block) is Ok ==> pos < block_spec(
            tokens,
            pos,
            depth,
            block,
        )->Ok_0.1 <= tokens.len(),
    decreases tokens.len() - pos, 2int,
{
    if 0 <= pos < tokens.len() {
        match tokens[pos] {
            TokenView::OpenBrace => {
                block_bounds(tokens, pos + 1, depth + 1, block);
            },
            TokenView::CloseBrace => {
                if depth > 1 {
                    block_bounds(tokens, pos + 1, (depth - 1) as nat, block);
                }
            },
            TokenView::NewLine => {
                block_bounds(tokens, pos + 1, depth, block);
            },
            _ => {
                statement_bounds(tokens, pos);
                match statement_at(tokens, pos) {
                    Ok((UnitView::Node(_), next)) => {
                        block_bounds(tokens, next, depth, block);
                    },
                    _ => {},
                }
            },
        }
    }
}

} // verus!
