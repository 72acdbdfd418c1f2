use naqua::tokenize::token::Token;
use naqua::tokenize::tokenizer::{chars_of, parse_int, text_of, Tokenizer};
use naqua::util::err::LexError;
use naqua::util::types::{Keyword, Number, Operator};
use naqua::util::Is;

fn lex(source: &str) -> Result<Vec<Token>, LexError> {
    Tokenizer::new(source.to_string()).tokenize()
}

fn whole(n: i64) -> Token {
    Token::Data(Number::Int(n))
}

fn double(x: f64) -> Token {
    Token::Data(Number::Float(x.to_bits()))
}

fn name(s: &str) -> Token {
    Token::RTKeyword(s.to_string())
}

#[test]
fn empty_source_has_no_tokens() {
    assert_eq!(lex(""), Ok(vec![]));
}

#[test]
fn program_with_block_lexes_token_by_token() {
    let tokens = lex("think 3\nif 3 {\nprint 1\n}\nprint 2").unwrap();
    assert_eq!(
        tokens,
        vec![
            Token::Keyword(Keyword::Think),
            whole(3),
            Token::NewLine,
            Token::Keyword(Keyword::If),
            whole(3),
            Token::OpenBrace,
            Token::NewLine,
            Token::Keyword(Keyword::Print),
            whole(1),
            Token::NewLine,
            Token::CloseBrace,
            Token::NewLine,
            Token::Keyword(Keyword::Print),
            whole(2),
        ]
    );
}

#[test]
fn every_keyword_is_recognized() {
    let tokens = lex("think in out print if loop define break char run spawn").unwrap();
    assert_eq!(
        tokens,
        vec![
            Token::Keyword(Keyword::Think),
            Token::Keyword(Keyword::In),
            Token::Keyword(Keyword::Out),
            Token::Keyword(Keyword::Print),
            Token::Keyword(Keyword::If),
            Token::Keyword(Keyword::Loop),
            Token::Keyword(Keyword::Define),
            Token::Keyword(Keyword::Break),
            Token::Keyword(Keyword::Char),
            Token::Keyword(Keyword::Run),
            Token::Keyword(Keyword::Spawn),
        ]
    );
}

#[test]
fn thought_is_a_number_not_a_keyword() {
    assert_eq!(lex("thought").unwrap(), vec![Token::Data(Number::Thought)]);
}

#[test]
fn other_words_are_names() {
    assert_eq!(
        lex("foo_bar-2 thinker Think").unwrap(),
        vec![name("foo_bar-2"), name("thinker"), name("Think")]
    );
}

#[test]
fn letters_beyond_ascii_start_words() {
    assert_eq!(lex("\u{e9}t\u{e9}").unwrap(), vec![name("\u{e9}t\u{e9}")]);
}

#[test]
fn underscore_starts_no_word() {
    assert_eq!(lex("_x"), Err(LexError::UnrecognizedCharacter { character: '_', line: 0 }));
}

#[test]
fn whitespace_separates_and_newline_is_a_token() {
    assert_eq!(
        lex(" \t1\r\n\t 2 ").unwrap(),
        vec![whole(1), Token::NewLine, whole(2)]
    );
}

#[test]
fn comment_runs_through_the_end_of_its_line() {
    assert_eq!(
        lex("# think 1\nprint 1 # print 2\nprint 3").unwrap(),
        vec![
            Token::Keyword(Keyword::Print),
            whole(1),
            Token::Keyword(Keyword::Print),
            whole(3),
        ]
    );
    assert_eq!(lex("# only a comment").unwrap(), vec![]);
}

#[test]
fn integers_and_doubles() {
    assert_eq!(lex("0 42 007").unwrap(), vec![whole(0), whole(42), whole(7)]);
    assert_eq!(
        lex("1.5 12. 0.25 100.0").unwrap(),
        vec![double(1.5), double(12.0), double(0.25), double(100.0)]
    );
    assert_eq!(lex("0.1").unwrap(), vec![double(0.1)]);
    assert_eq!(
        lex("3.141592653589793 2.718281828459045").unwrap(),
        vec![double(3.141592653589793), double(2.718281828459045)]
    );
}

#[test]
fn minus_before_digits_is_part_of_the_number() {
    assert_eq!(lex("-3").unwrap(), vec![whole(-3)]);
    assert_eq!(lex("5 -3").unwrap(), vec![whole(5), whole(-3)]);
    assert_eq!(lex("-2.5 -.5").unwrap(), vec![double(-2.5), double(-0.5)]);
}

#[test]
fn minus_alone_is_the_operator() {
    assert_eq!(
        lex("5 - 3").unwrap(),
        vec![whole(5), Token::OpToken(Operator::Sub), whole(3)]
    );
    assert_eq!(lex("-").unwrap(), vec![Token::OpToken(Operator::Sub)]);
    assert_eq!(
        lex("-x").unwrap(),
        vec![Token::OpToken(Operator::Sub), name("x")]
    );
}

#[test]
fn braces_and_operators() {
    assert_eq!(
        lex("{}+*/^%").unwrap(),
        vec![
            Token::OpenBrace,
            Token::CloseBrace,
            Token::OpToken(Operator::Add),
            Token::OpToken(Operator::Mul),
            Token::OpToken(Operator::Div),
            Token::OpToken(Operator::Exp),
            Token::OpToken(Operator::Mod),
        ]
    );
}

#[test]
fn integer_limits() {
    assert_eq!(lex("9223372036854775807").unwrap(), vec![whole(i64::MAX)]);
    assert_eq!(lex("-9223372036854775808").unwrap(), vec![whole(i64::MIN)]);
    assert_eq!(lex("9223372036854775808"), Err(LexError::MalformedInteger { line: 0 }));
    assert_eq!(lex("-9223372036854775809"), Err(LexError::MalformedInteger { line: 0 }));
    assert_eq!(
        lex("1\n2\n99999999999999999999999999999999999999999"),
        Err(LexError::MalformedInteger { line: 2 })
    );
}

#[test]
fn point_without_digits_is_no_double() {
    assert_eq!(lex("-."), Err(LexError::MalformedFloat { line: 0 }));
    assert_eq!(lex("1\n\n-."), Err(LexError::MalformedFloat { line: 2 }));
}

#[test]
fn second_point_ends_the_number() {
    assert_eq!(lex("1.2.3"), Err(LexError::UnrecognizedCharacter { character: '.', line: 0 }));
}

#[test]
fn unknown_character_is_named_with_its_line() {
    assert_eq!(lex("$"), Err(LexError::UnrecognizedCharacter { character: '$', line: 0 }));
    assert_eq!(
        lex("print 1\n\nprint @"),
        Err(LexError::UnrecognizedCharacter { character: '@', line: 2 })
    );
    assert_eq!(
        lex("# a comment\n?"),
        Err(LexError::UnrecognizedCharacter { character: '?', line: 1 })
    );
}

#[test]
fn huge_double_is_infinite() {
    let tokens = lex("1000000000000000000000000000000000000000000000000000000000000000000000000000000000000000000000000000000000000000000000000000000000000000000000000000000000000000000000000000000000000000000000000000000000000000000000000000000000000000000000000000000000000000000000000000000000000000000000000000000000000000000000.").unwrap();
    assert_eq!(tokens, vec![double(f64::INFINITY)]);
}

#[test]
fn tokenizing_twice_starts_where_the_first_ended() {
    let mut tokenizer = Tokenizer::new("print 1".to_string());
    assert_eq!(tokenizer.tokenize().unwrap().len(), 2);
    assert_eq!(tokenizer.tokenize().unwrap(), vec![]);
}

#[test]
fn go_steps_over_a_character() {
    let mut tokenizer = Tokenizer::new("12".to_string());
    tokenizer.go();
    assert_eq!(tokenizer.tokenize().unwrap(), vec![whole(2)]);
}

#[test]
fn chars_of_gives_every_character() {
    assert_eq!(chars_of("a\u{e9}\n"), vec!['a', '\u{e9}', '\n']);
    assert_eq!(chars_of(""), Vec::<char>::new());
}

#[test]
fn parse_int_reads_a_run() {
    let chars: Vec<char> = "x-120y".chars().collect();
    assert_eq!(parse_int(&chars, 1, 5), Some(-120));
    assert_eq!(parse_int(&chars, 2, 5), Some(120));
    assert_eq!(parse_int(&chars, 2, 2), Some(0));
    assert_eq!(parse_int(&chars, 0, 3), None);
    assert_eq!(parse_int(&chars, 1, 6), None);
}

#[test]
fn character_classes() {
    assert!(Is::whitespace(' ') && Is::whitespace('\n') && Is::whitespace('\u{2003}'));
    assert!(!Is::whitespace('a'));
    assert!(Is::letter('a') && Is::letter('Z') && Is::letter('\u{3b1}'));
    assert!(!Is::letter('1') && !Is::letter('_') && !Is::letter(' '));
    assert!(Is::symbol('_') && Is::symbol('-') && !Is::symbol('+'));
    assert!(Is::digit('0') && Is::digit('9') && !Is::digit('a') && !Is::digit('\u{663}'));
    assert!(Is::operator('+') && Is::operator('-') && Is::operator('*'));
    assert!(Is::operator('/') && Is::operator('^') && Is::operator('%'));
    assert!(!Is::operator('=') && !Is::operator('{'));
    assert!(Is::brace('{') && Is::brace('}') && !Is::brace('('));
    assert!(Is::rtk_compatible('a') && Is::rtk_compatible('7') && Is::rtk_compatible('_'));
    assert!(Is::rtk_compatible('-') && !Is::rtk_compatible(' ') && !Is::rtk_compatible('{'));
}

#[test]
fn operators_and_their_signs() {
    let all = [
        (Operator::Add, '+'),
        (Operator::Sub, '-'),
        (Operator::Mul, '*'),
        (Operator::Div, '/'),
        (Operator::Exp, '^'),
        (Operator::Mod, '%'),
    ];
    for (op, sign) in all {
        assert_eq!(op.to_char(), sign);
        assert_eq!(Operator::from(sign), op);
    }
    assert_eq!(Operator::from('x'), Operator::Add);
}

#[test]
fn keywords_and_their_spelling() {
    let all = [
        (Keyword::Think, "think"),
        (Keyword::Thought, "thought"),
        (Keyword::In, "in"),
        (Keyword::Out, "out"),
        (Keyword::Print, "print"),
        (Keyword::If, "if"),
        (Keyword::Loop, "loop"),
        (Keyword::Define, "define"),
        (Keyword::Break, "break"),
        (Keyword::Char, "char"),
        (Keyword::Run, "run"),
        (Keyword::Spawn, "spawn"),
    ];
    for (keyword, text) in all {
        assert_eq!(keyword.to_str(), text);
        assert_eq!(Keyword::from(text), Some(keyword));
    }
    assert_eq!(Keyword::from("Think"), None);
    assert_eq!(Keyword::from("thin"), None);
    assert_eq!(Keyword::from("thinks"), None);
    assert_eq!(Keyword::from(""), None);
}

#[test]
fn numbers_and_their_tags() {
    let i = Number::Int(5);
    let f = Number::Float(5.0f64.to_bits());
    let t = Number::Thought;
    assert!(i.is_int() && !i.is_float() && !i.is_thought());
    assert!(f.is_float() && !f.is_int() && !f.is_thought());
    assert!(t.is_thought() && !t.is_int() && !t.is_float());
    assert_eq!(i.int_value(), Some(5));
    assert_eq!(f.int_value(), None);
    assert_eq!(t.int_value(), None);
    assert_eq!(f64::from_bits(i.float()), 5.0);
    assert_eq!(f64::from_bits(f.float()), 5.0);
    assert_eq!(f64::from_bits(t.float()), 0.0);
    assert_eq!(f64::from_bits(Number::Int(-3).float()), -3.0);
    assert_eq!(f64::from_bits(Number::Int(i64::MAX).float()), i64::MAX as f64);
    assert_eq!(f64::from_bits(Number::Int(9007199254740993).float()), 9007199254740993i64 as f64);
}

#[test]
fn numbers_are_equal_with_their_tags() {
    assert_eq!(Number::Int(5), Number::Int(5));
    assert_ne!(Number::Int(5), Number::Int(6));
    assert_ne!(Number::Int(5), Number::Float(5.0f64.to_bits()));
    assert_eq!(Number::Float(5.0f64.to_bits()), Number::Float(5.0f64.to_bits()));
    assert_eq!(Number::Float(0.0f64.to_bits()), Number::Float((-0.0f64).to_bits()));
    assert_ne!(Number::Float(f64::NAN.to_bits()), Number::Float(f64::NAN.to_bits()));
    assert_eq!(Number::Thought, Number::Thought);
    assert_ne!(Number::Thought, Number::Int(0));
}

#[test]
fn text_of_gives_a_part_of_the_characters() {
    let chars: Vec<char> = "think \u{e9}t\u{e9} 1".chars().collect();
    assert_eq!(text_of(&chars, 0, 5), "think");
    assert_eq!(text_of(&chars, 6, 9), "\u{e9}t\u{e9}");
    assert_eq!(text_of(&chars, 3, 3), "");
    assert_eq!(text_of(&chars, 0, chars.len()), "think \u{e9}t\u{e9} 1");
}
