//! Error values of the three phases, and their messages.

use crate::parse::parser::Parser;
use crate::runtime::runtime::Runner;
use crate::util::push_char;
use crate::util::types::Operator;
use vstd::prelude::*;
use vstd::string::StringExecFns;

verus! {

/// Why source text is no sequence of tokens. Lines are counted from zero.
#[derive(Debug, Copy, Clone, PartialEq, Eq, Structural)]
pub enum LexError {
    /// A character that starts no token.
    UnrecognizedCharacter { character: char, line: usize },
    /// A run of digits that is no 64-bit signed integer.
    MalformedInteger { line: usize },
    /// A run of digits with a point that is no decimal numeral.
    MalformedFloat { line: usize },
}

/// The kinds of block that hold statements between braces.
#[derive(Debug, Copy, Clone, PartialEq, Eq, Structural)]
pub enum Block {
    If,
    Loop,
    Define,
}

/// Why a sequence of tokens is no program.
#[derive(Debug, Copy, Clone, PartialEq, Eq, Structural)]
pub enum ParseErrorKind {
    /// `in` at the head of a statement.
    InWithoutIndex,
    /// A reserved word that starts no statement.
    UnexpectedKeyword,
    /// An operator at the head of a statement.
    UnexpectedOperator(Operator),
    /// A name or a brace at the head of a statement.
    UnexpectedToken,
    /// `think` followed by something that is no number.
    ThinkOperand,
    /// `think` at the end of the tokens.
    ThinkNothing,
    /// `print` followed by something that is no number.
    PrintOperand,
    /// `print` at the end of the tokens.
    PrintNothing,
    /// `run` or `spawn` followed by a reserved word.
    ReservedMacroName,
    /// `run` or `spawn` followed by a number.
    MacroNameIsData,
    /// `run` or `spawn` followed by nothing that could name a macro.
    MissingMacroName,
    /// An expression that starts with neither a number nor `out`.
    NotANumber,
    /// An operator followed by neither a number nor `out`.
    MissingOperand,
    /// `out` followed by neither a number nor another `out`.
    BadIndex,
    /// `out` at the end of the tokens.
    MissingIndex,
    /// A number at the head of the last statement, with nothing behind it.
    LoneNumber,
    /// A number at the head of a statement followed by something other than
    /// the end of the line, `in` or `out`.
    BadFollower,
    /// `in` at the end of the tokens.
    AssignNothing,
    /// `if` followed by neither a number nor `out`.
    IfCondition,
    /// `define` followed by something that is no name.
    DefineName,
    /// A block that does not start with an opening brace.
    ExpectedOpenBrace(Block),
    /// A block that the tokens end inside of.
    MismatchedBraces(Block),
    /// A macro definition inside a block.
    NestedMacro(Block),
}

/// A parse error, with the index of the top-level statement, counted from
/// zero, that was being parsed.
#[derive(Debug, Copy, Clone, PartialEq, Eq, Structural)]
pub struct ParseError {
    pub kind: ParseErrorKind,
    pub index: usize,
}

/// Why a program stopped.
#[derive(Debug, Copy, Clone, PartialEq, Eq, Structural)]
pub enum RuntimeErrorKind {
    /// `run` or `spawn` of a name that no macro has.
    MissingMacro,
    DivisionByZero,
    /// An operator whose meaning is not defined: `^` or `%`.
    UnsupportedOperator,
    /// An assignment of something that is no number.
    NonNumericAssign,
    /// `think` of a character.
    NotNumeric,
    /// A character cast to a code point that is no Unicode scalar value.
    InvalidScalar,
    /// More nested blocks and macro calls than the runner allows.
    DepthLimit,
    /// More rounds of one loop than the runner allows.
    StepLimit,
    /// A task that did not run to its end.
    TaskFailed,
}

/// A runtime error, with the index of the top-level statement, counted from
/// zero, that was being executed.
#[derive(Debug, Copy, Clone, PartialEq, Eq, Structural)]
pub struct RuntimeError {
    pub kind: RuntimeErrorKind,
    pub index: usize,
}

/// The digit that stands for a number below ten.
pub open spec fn digit_char(d: int) -> char {
    if d == 0 {
        '0'
    } else if d == 1 {
        '1'
    } else if d == 2 {
        '2'
    } else if d == 3 {
        '3'
    } else if d == 4 {
        '4'
    } else if d == 5 {
        '5'
    } else if d == 6 {
        '6'
    } else if d == 7 {
        '7'
    } else if d == 8 {
        '8'
    } else {
        '9'
    }
}

/// The decimal numeral of a natural number, without leading zeros.
pub open spec fn decimal(n: nat) -> Seq<char>
    decreases n,
{
    if n < 10 {
        seq![digit_char(n as int)]
    } else {
        decimal(n / 10).push(digit_char((n % 10) as int))
    }
}

/// The decimal numeral of an integer, with a minus sign where it is negative.
pub open spec fn signed_decimal(i: int) -> Seq<char> {
    if i < 0 {
        seq!['-'] + decimal((-i) as nat)
    } else {
        decimal(i as nat)
    }
}

/// The text of a single digit.
fn digit_text(d: u64) -> (r: &'static str)
    requires
        d < 10,
    ensures
        r@ == seq![digit_char(d as int)],
{
    proof {
        reveal_strlit("0");
        reveal_strlit("1");
        reveal_strlit("2");
        reveal_strlit("3");
        reveal_strlit("4");
        reveal_strlit("5");
        reveal_strlit("6");
        reveal_strlit("7");
        reveal_strlit("8");
        reveal_strlit("9");
    }
    let r = if d == 0 {
        "0"
    } else if d == 1 {
        "1"
    } else if d == 2 {
        "2"
    } else if d == 3 {
        "3"
    } else if d == 4 {
        "4"
    } else if d == 5 {
        "5"
    } else if d == 6 {
        "6"
    } else if d == 7 {
        "7"
    } else if d == 8 {
        "8"
    } else {
        "9"
    };
    assert(r@ =~= seq![digit_char(d as int)]);
    r
}

/// Appends the decimal numeral of a number to a text.
pub fn push_decimal(text: &mut String, n: u64)
    ensures
        final(text)@ == old(text)@ + decimal(n as nat),
    decreases n,
{
    if n >= 10 {
        push_decimal(text, n / 10);
    }
    text.append(digit_text(n % 10));
    assert(final(text)@ =~= old(text)@ + decimal(n as nat));
}

/// The message that names an internal error by its code.
pub fn err_code(code: i16) -> (r: String)
    ensures
        r@ == "Error code "@ + signed_decimal(code as int),
{
    let mut text = String::from_str("Error code ");
    if code < 0 {
        proof {
            reveal_strlit("-");
        }
        text.append("-");
        let magnitude: u64 = (-(code as i64)) as u64;
        push_decimal(&mut text, magnitude);
        assert(text@ =~= "Error code "@ + signed_decimal(code as int));
    } else {
        push_decimal(&mut text, code as u64);
    }
    text
}

/// A message followed by the index of the statement that it is about.
pub open spec fn located(msg: Seq<char>, index: nat) -> Seq<char> {
    msg + ": Found at expression #"@ + decimal(index)
}

/// Puts the index of a statement behind a message.
pub fn locate(msg: &str, index: usize) -> (r: String)
    ensures
        r@ == located(msg@, index as nat),
{
    let mut text = String::from_str(msg);
    text.append(": Found at expression #");
    push_decimal(&mut text, index as u64);
    text
}

impl LexError {
    /// The line of the error, counted from zero.
    pub open spec fn at(self) -> usize {
        match self {
            LexError::UnrecognizedCharacter { character, line } => line,
            LexError::MalformedInteger { line } => line,
            LexError::MalformedFloat { line } => line,
        }
    }

    /// What went wrong, in words, without the line.
    pub open spec fn text(self) -> Seq<char> {
        match self {
            LexError::UnrecognizedCharacter { character, line } => "Unrecognized character '"@.push(
                character,
            ) + "'"@,
            LexError::MalformedInteger { line } => "Incorrect integer formatting"@,
            LexError::MalformedFloat { line } => "Incorrect float formatting"@,
        }
    }

    /// The line of the error, counted from zero.
    pub fn line(&self) -> (r: usize)
        ensures
            r == self.at(),
    {
        match self {
            LexError::UnrecognizedCharacter { character: _, line } => *line,
            LexError::MalformedInteger { line } => *line,
            LexError::MalformedFloat { line } => *line,
        }
    }

    /// The error in words, with its line.
    pub fn message(&self) -> (r: String)
        ensures
            r@ == self.text() + " at line "@ + decimal(self.at() as nat),
    {
        let mut text = match self {
            LexError::UnrecognizedCharacter { character, line: _ } => {
                let mut named = String::from_str("Unrecognized character '");
                push_char(&mut named, *character);
                named.append("'");
                named
            },
            LexError::MalformedInteger { .. } => String::from_str("Incorrect integer formatting"),
            LexError::MalformedFloat { .. } => String::from_str("Incorrect float formatting"),
        };
        text.append(" at line ");
        push_decimal(&mut text, self.line() as u64);
        text
    }
}

impl ParseErrorKind {
    /// What went wrong, in words.
    pub open spec fn text(self) -> Seq<char> {
        match self {
            ParseErrorKind::InWithoutIndex => "'in' must follow a stack index!"@,
            ParseErrorKind::UnexpectedKeyword => "Keyword not recognized!"@,
            ParseErrorKind::UnexpectedOperator(_) => "Unexpected operator found!"@,
            ParseErrorKind::UnexpectedToken => "Unexpected token found!"@,
            ParseErrorKind::ThinkOperand => "Only data types can be imagined!"@,
            ParseErrorKind::ThinkNothing => "Unable to imagine nothing!"@,
            ParseErrorKind::PrintOperand => "Only data types can be printed!"@,
            ParseErrorKind::PrintNothing => "Unable to print nothing!"@,
            ParseErrorKind::ReservedMacroName => "Unable to run a macro with reserved name!"@,
            ParseErrorKind::MacroNameIsData => "Unable to run a data type!"@,
            ParseErrorKind::MissingMacroName => "Unable to run a non-existent macro!"@,
            ParseErrorKind::NotANumber => "Unable to parse a non-number token!"@,
            ParseErrorKind::MissingOperand => "Unable to find a number after an operator!"@,
            ParseErrorKind::BadIndex => "Unable to get a non-integer index!"@,
            ParseErrorKind::MissingIndex => "Unable to retrieve data from a non-existent index!"@,
            ParseErrorKind::LoneNumber => "Unable to process a lone number!"@,
            ParseErrorKind::BadFollower => "Token is not allowed to follow a heading number!"@,
            ParseErrorKind::AssignNothing => "Unable to assign stack index to nothing!"@,
            ParseErrorKind::IfCondition => "Expected a number for if statement condition"@,
            ParseErrorKind::DefineName => "'define' statement needs a name!"@,
            ParseErrorKind::ExpectedOpenBrace(Block::If) => "Expected opening brace for if statement"@,
            ParseErrorKind::ExpectedOpenBrace(Block::Loop) => "Expected opening brace for loop statement"@,
            ParseErrorKind::ExpectedOpenBrace(Block::Define) => "Expected opening brace for macro definition"@,
            ParseErrorKind::MismatchedBraces(Block::If) => "Mismatched braces in if statement"@,
            ParseErrorKind::MismatchedBraces(Block::Loop) => "Mismatched braces in loop statement"@,
            ParseErrorKind::MismatchedBraces(Block::Define) => "Mismatched braces in macro definition"@,
            ParseErrorKind::NestedMacro(Block::If) => "Macro definitions are not allowed in if statements!"@,
            ParseErrorKind::NestedMacro(Block::Loop) => "Macro definitions are not allowed in loop statements!"@,
            ParseErrorKind::NestedMacro(Block::Define) => "Macro definitions are not allowed to be in other macro definitions!"@,
        }
    }

    /// What went wrong, in words.
    pub fn describe(&self) -> (r: &'static str)
        ensures
            r@ == self.text(),
    {
        match self {
            ParseErrorKind::InWithoutIndex => "'in' must follow a stack index!",
            ParseErrorKind::UnexpectedKeyword => "Keyword not recognized!",
            ParseErrorKind::UnexpectedOperator(_) => "Unexpected operator found!",
            ParseErrorKind::UnexpectedToken => "Unexpected token found!",
            ParseErrorKind::ThinkOperand => "Only data types can be imagined!",
            ParseErrorKind::ThinkNothing => "Unable to imagine nothing!",
            ParseErrorKind::PrintOperand => "Only data types can be printed!",
            ParseErrorKind::PrintNothing => "Unable to print nothing!",
            ParseErrorKind::ReservedMacroName => "Unable to run a macro with reserved name!",
            ParseErrorKind::MacroNameIsData => "Unable to run a data type!",
            ParseErrorKind::MissingMacroName => "Unable to run a non-existent macro!",
            ParseErrorKind::NotANumber => "Unable to parse a non-number token!",
            ParseErrorKind::MissingOperand => "Unable to find a number after an operator!",
            ParseErrorKind::BadIndex => "Unable to get a non-integer index!",
            ParseErrorKind::MissingIndex => "Unable to retrieve data from a non-existent index!",
            ParseErrorKind::LoneNumber => "Unable to process a lone number!",
            ParseErrorKind::BadFollower => "Token is not allowed to follow a heading number!",
            ParseErrorKind::AssignNothing => "Unable to assign stack index to nothing!",
            ParseErrorKind::IfCondition => "Expected a number for if statement condition",
            ParseErrorKind::DefineName => "'define' statement needs a name!",
            ParseErrorKind::ExpectedOpenBrace(Block::If) => "Expected opening brace for if statement",
            ParseErrorKind::ExpectedOpenBrace(Block::Loop) => "Expected opening brace for loop statement",
            ParseErrorKind::ExpectedOpenBrace(Block::Define) => "Expected opening brace for macro definition",
            ParseErrorKind::MismatchedBraces(Block::If) => "Mismatched braces in if statement",
            ParseErrorKind::MismatchedBraces(Block::Loop) => "Mismatched braces in loop statement",
            ParseErrorKind::MismatchedBraces(Block::Define) => "Mismatched braces in macro definition",
            ParseErrorKind::NestedMacro(Block::If) => "Macro definitions are not allowed in if statements!",
            ParseErrorKind::NestedMacro(Block::Loop) => "Macro definitions are not allowed in loop statements!",
            ParseErrorKind::NestedMacro(Block::Define) => "Macro definitions are not allowed to be in other macro definitions!",
        }
    }
}

impl ParseError {
    /// The error in words, with the index of its statement.
    pub fn message(&self) -> (r: String)
        ensures
            r@ == located(self.kind.text(), self.index as nat),
    {
        locate(self.kind.describe(), self.index)
    }
}

impl RuntimeErrorKind {
    /// What went wrong, in words.
    pub open spec fn text(self) -> Seq<char> {
        match self {
            RuntimeErrorKind::MissingMacro => "Macro not found!"@,
            RuntimeErrorKind::DivisionByZero => "Attempted division by zero!"@,
            RuntimeErrorKind::UnsupportedOperator => "Unsupported operator!"@,
            RuntimeErrorKind::NonNumericAssign => "Unable to assign a non-data type to a stack index!"@,
            RuntimeErrorKind::NotNumeric => "Unable to evaluate!"@,
            RuntimeErrorKind::InvalidScalar => "Not a valid character!"@,
            RuntimeErrorKind::DepthLimit => "Too many nested blocks and macro calls!"@,
            RuntimeErrorKind::StepLimit => "Too many rounds of a loop!"@,
            RuntimeErrorKind::TaskFailed => "A thread panicked"@,
        }
    }

    /// What went wrong, in words.
    pub fn describe(&self) -> (r: &'static str)
        ensures
            r@ == self.text(),
    {
        match self {
            RuntimeErrorKind::MissingMacro => "Macro not found!",
            RuntimeErrorKind::DivisionByZero => "Attempted division by zero!",
            RuntimeErrorKind::UnsupportedOperator => "Unsupported operator!",
            RuntimeErrorKind::NonNumericAssign => "Unable to assign a non-data type to a stack index!",
            RuntimeErrorKind::NotNumeric => "Unable to evaluate!",
            RuntimeErrorKind::InvalidScalar => "Not a valid character!",
            RuntimeErrorKind::DepthLimit => "Too many nested blocks and macro calls!",
            RuntimeErrorKind::StepLimit => "Too many rounds of a loop!",
            RuntimeErrorKind::TaskFailed => "A thread panicked",
        }
    }
}

impl RuntimeError {
    /// The error in words, with the index of its statement.
    pub fn message(&self) -> (r: String)
        ensures
            r@ == located(self.kind.text(), self.index as nat),
    {
        locate(self.kind.describe(), self.index)
    }
}

impl<'t> Parser<'t> {
    /// A message, with the index of the statement that is being parsed.
    pub fn err(&self, msg: &str) -> (r: String)
        ensures
            r@ == located(msg@, self.expr as nat),
    {
        locate(msg, self.expr)
    }
}

impl Runner {
    /// A message, with the index of the statement that is being executed.
    pub fn err(&self, msg: &str) -> (r: String)
        ensures
            r@ == located(msg@, self.expr as nat),
    {
        locate(msg, self.expr)
    }
}

} // verus!
