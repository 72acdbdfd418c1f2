use naqua::util::err::{
    err_code, locate, push_decimal, Block, LexError, ParseError, ParseErrorKind, RuntimeError,
    RuntimeErrorKind,
};
use naqua::util::types::Operator;

#[test]
fn error_code_is_spelled_in_decimal() {
    assert_eq!(err_code(101), "Error code 101");
    assert_eq!(err_code(102), "Error code 102");
    assert_eq!(err_code(0), "Error code 0");
    assert_eq!(err_code(7), "Error code 7");
    assert_eq!(err_code(10), "Error code 10");
    assert_eq!(err_code(-1), "Error code -1");
    assert_eq!(err_code(i16::MAX), "Error code 32767");
    assert_eq!(err_code(i16::MIN), "Error code -32768");
}

#[test]
fn decimal_numerals() {
    for n in [0u64, 1, 9, 10, 11, 99, 100, 12345, 1000000007, u64::MAX] {
        let mut text = String::from("n=");
        push_decimal(&mut text, n);
        assert_eq!(text, format!("n={}", n));
    }
}

#[test]
fn located_message() {
    assert_eq!(locate("Oops", 0), "Oops: Found at expression #0");
    assert_eq!(locate("", 250), ": Found at expression #250");
}

#[test]
fn lex_error_names_character_and_line() {
    let e = LexError::UnrecognizedCharacter { character: '$', line: 3 };
    assert_eq!(e.line(), 3);
    assert_eq!(e.message(), "Unrecognized character '$' at line 3");
    let wide = LexError::UnrecognizedCharacter { character: '\u{20ac}', line: 0 };
    assert_eq!(wide.message(), "Unrecognized character '\u{20ac}' at line 0");
    let i = LexError::MalformedInteger { line: 12 };
    assert_eq!(i.line(), 12);
    assert_eq!(i.message(), "Incorrect integer formatting at line 12");
    let f = LexError::MalformedFloat { line: 1 };
    assert_eq!(f.line(), 1);
    assert_eq!(f.message(), "Incorrect float formatting at line 1");
}

#[test]
fn parse_error_names_its_statement() {
    let e = ParseError { kind: ParseErrorKind::ThinkOperand, index: 4 };
    assert_eq!(e.message(), "Only data types can be imagined!: Found at expression #4");
    assert_eq!(ParseErrorKind::InWithoutIndex.describe(), "'in' must follow a stack index!");
    assert_eq!(
        ParseErrorKind::UnexpectedOperator(Operator::Mul).describe(),
        "Unexpected operator found!"
    );
    assert_eq!(
        ParseErrorKind::MismatchedBraces(Block::If).describe(),
        "Mismatched braces in if statement"
    );
    assert_eq!(
        ParseErrorKind::MismatchedBraces(Block::Loop).describe(),
        "Mismatched braces in loop statement"
    );
    assert_eq!(
        ParseErrorKind::NestedMacro(Block::Define).describe(),
        "Macro definitions are not allowed to be in other macro definitions!"
    );
    assert_eq!(
        ParseErrorKind::ExpectedOpenBrace(Block::Define).describe(),
        "Expected opening brace for macro definition"
    );
}

#[test]
fn every_parse_error_has_words() {
    let kinds = [
        ParseErrorKind::InWithoutIndex,
        ParseErrorKind::UnexpectedKeyword,
        ParseErrorKind::UnexpectedOperator(Operator::Add),
        ParseErrorKind::UnexpectedToken,
        ParseErrorKind::ThinkOperand,
        ParseErrorKind::ThinkNothing,
        ParseErrorKind::PrintOperand,
        ParseErrorKind::PrintNothing,
        ParseErrorKind::ReservedMacroName,
        ParseErrorKind::MacroNameIsData,
        ParseErrorKind::MissingMacroName,
        ParseErrorKind::NotANumber,
        ParseErrorKind::MissingOperand,
        ParseErrorKind::BadIndex,
        ParseErrorKind::MissingIndex,
        ParseErrorKind::LoneNumber,
        ParseErrorKind::BadFollower,
        ParseErrorKind::AssignNothing,
        ParseErrorKind::IfCondition,
        ParseErrorKind::DefineName,
        ParseErrorKind::ExpectedOpenBrace(Block::If),
        ParseErrorKind::ExpectedOpenBrace(Block::Loop),
        ParseErrorKind::ExpectedOpenBrace(Block::Define),
        ParseErrorKind::MismatchedBraces(Block::If),
        ParseErrorKind::MismatchedBraces(Block::Loop),
        ParseErrorKind::MismatchedBraces(Block::Define),
        ParseErrorKind::NestedMacro(Block::If),
        ParseErrorKind::NestedMacro(Block::Loop),
        ParseErrorKind::NestedMacro(Block::Define),
    ];
    let mut seen: Vec<&str> = vec![];
    for kind in kinds {
        let words = kind.describe();
        assert!(!words.is_empty());
        assert!(!seen.contains(&words));
        seen.push(words);
    }
}

#[test]
fn runtime_error_names_its_statement() {
    let e = RuntimeError { kind: RuntimeErrorKind::DivisionByZero, index: 2 };
    assert_eq!(e.message(), "Attempted division by zero!: Found at expression #2");
    let kinds = [
        RuntimeErrorKind::MissingMacro,
        RuntimeErrorKind::DivisionByZero,
        RuntimeErrorKind::UnsupportedOperator,
        RuntimeErrorKind::NonNumericAssign,
        RuntimeErrorKind::NotNumeric,
        RuntimeErrorKind::InvalidScalar,
        RuntimeErrorKind::DepthLimit,
        RuntimeErrorKind::StepLimit,
        RuntimeErrorKind::TaskFailed,
    ];
    let mut seen: Vec<&str> = vec![];
    for kind in kinds {
        let words = kind.describe();
        assert!(!words.is_empty());
        assert!(!seen.contains(&words));
        seen.push(words);
    }
    assert_eq!(RuntimeErrorKind::TaskFailed.describe(), "A thread panicked");
}
