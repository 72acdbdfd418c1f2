use naqua::parse::macros::MacroTable;
use naqua::parse::parser::Parser;
use naqua::parse::{ExprType, Node, ParserResult};
use naqua::tokenize::token::Token;
use naqua::tokenize::tokenizer::Tokenizer;
use naqua::util::err::{Block, ParseError, ParseErrorKind};
use naqua::util::types::{Keyword, Number, Operator};

fn tokens_of(source: &str) -> Vec<Token> {
    Tokenizer::new(source.to_string()).tokenize().unwrap()
}

fn parse_source(source: &str) -> Result<ParserResult, ParseError> {
    let tokens = tokens_of(source);
    let mut parser = Parser::new(&tokens, false);
    parser.parse()
}

fn nodes_of_source(source: &str) -> Vec<Node> {
    parse_source(source).unwrap().nodes
}

fn error_of_source(source: &str) -> ParseError {
    match parse_source(source) {
        Ok(_) => panic!("the source parses"),
        Err(e) => e,
    }
}

fn lit(n: i64) -> Node {
    Node::Literal(Number::Int(n))
}

fn boxed(n: i64) -> Box<Node> {
    Box::new(lit(n))
}

fn read(index: Node) -> Node {
    Node::Out(Box::new(index))
}

fn block(nodes: Vec<Node>) -> Box<Vec<Node>> {
    Box::new(nodes)
}

#[test]
fn no_tokens_no_program() {
    let program = parse_source("").unwrap();
    assert_eq!(program.nodes, vec![]);
    assert_eq!(program.macros, None);
    let lines = parse_source("\n\n\n").unwrap();
    assert_eq!(lines.nodes, vec![]);
}

#[test]
fn one_statement_of_every_kind() {
    let source = "think 1\nprint 2\nif 3 {\nbreak\n}\nloop {\nbreak\n}\ndefine m {\nprint 4\n}\nrun m\nspawn m\nbreak\n5 in 6\n7\n";
    let program = parse_source(source).unwrap();
    assert_eq!(
        program.nodes,
        vec![
            Node::Think(boxed(1)),
            Node::Print(boxed(2)),
            Node::If(boxed(3), block(vec![Node::Break])),
            Node::Loop(block(vec![Node::Break])),
            Node::Run("m".to_string()),
            Node::Spawn("m".to_string()),
            Node::Break,
            Node::Assign(boxed(5), boxed(6)),
            lit(7),
        ]
    );
    // Ten statements, one of them a macro definition.
    assert_eq!(program.nodes.len(), 10 - 1);
    let macros = program.macros.unwrap();
    assert_eq!(macros.get("m"), Some(&vec![Node::Print(boxed(4))]));
    assert_eq!(macros.get("n"), None);
}

#[test]
fn statements_follow_each_other_on_one_line() {
    assert_eq!(
        nodes_of_source("print 1 print 2 break"),
        vec![Node::Print(boxed(1)), Node::Print(boxed(2)), Node::Break]
    );
}

#[test]
fn operators_group_to_the_right() {
    assert_eq!(
        nodes_of_source("print 1 - 2 - 3"),
        vec![Node::Print(Box::new(Node::Eval(
            boxed(1),
            Operator::Sub,
            Box::new(Node::Eval(boxed(2), Operator::Sub, boxed(3))),
        )))]
    );
    assert_eq!(
        nodes_of_source("think 2 * 3 + 4"),
        vec![Node::Think(Box::new(Node::Eval(
            boxed(2),
            Operator::Mul,
            Box::new(Node::Eval(boxed(3), Operator::Add, boxed(4))),
        )))]
    );
}

#[test]
fn every_operator_parses() {
    for (sign, op) in [
        ("+", Operator::Add),
        ("-", Operator::Sub),
        ("*", Operator::Mul),
        ("/", Operator::Div),
        ("^", Operator::Exp),
        ("%", Operator::Mod),
    ] {
        assert_eq!(
            nodes_of_source(&format!("print 8 {} 2", sign)),
            vec![Node::Print(Box::new(Node::Eval(boxed(8), op, boxed(2))))]
        );
    }
}

#[test]
fn char_wraps_the_expression_before_it() {
    assert_eq!(
        nodes_of_source("print 65 char"),
        vec![Node::Print(Box::new(Node::Char(boxed(65))))]
    );
    assert_eq!(
        nodes_of_source("print 1 + 64 char"),
        vec![Node::Print(Box::new(Node::Eval(
            boxed(1),
            Operator::Add,
            Box::new(Node::Char(boxed(64))),
        )))]
    );
    assert_eq!(
        nodes_of_source("print 1 + 64 char char"),
        vec![Node::Print(Box::new(Node::Char(Box::new(Node::Eval(
            boxed(1),
            Operator::Add,
            Box::new(Node::Char(boxed(64))),
        )))))]
    );
}

#[test]
fn thought_and_doubles_are_operands() {
    assert_eq!(
        nodes_of_source("print thought + 1.5"),
        vec![Node::Print(Box::new(Node::Eval(
            Box::new(Node::Literal(Number::Thought)),
            Operator::Add,
            Box::new(Node::Literal(Number::Float(1.5f64.to_bits()))),
        )))]
    );
}

#[test]
fn memory_reads_nest() {
    assert_eq!(nodes_of_source("print out 0"), vec![Node::Print(Box::new(read(lit(0))))]);
    assert_eq!(
        nodes_of_source("print out out 0"),
        vec![Node::Print(Box::new(read(read(lit(0)))))]
    );
    assert_eq!(
        nodes_of_source("think out out out thought"),
        vec![Node::Think(Box::new(read(read(read(Node::Literal(Number::Thought))))))]
    );
    assert_eq!(
        nodes_of_source("print out 1 + out 2.5"),
        vec![Node::Print(Box::new(Node::Eval(
            Box::new(read(lit(1))),
            Operator::Add,
            Box::new(read(Node::Literal(Number::Float(2.5f64.to_bits())))),
        )))]
    );
}

#[test]
fn keyword_without_operand_is_an_empty_statement() {
    let program = parse_source("think\nprint\nrun\nspawn\nprint 1").unwrap();
    assert_eq!(program.nodes, vec![Node::Print(boxed(1))]);
}

#[test]
fn number_head_alone_assignment_and_read() {
    assert_eq!(nodes_of_source("5\n"), vec![lit(5)]);
    assert_eq!(nodes_of_source("1 + 2\n"), vec![Node::Eval(boxed(1), Operator::Add, boxed(2))]);
    assert_eq!(nodes_of_source("5 in 6"), vec![Node::Assign(boxed(5), boxed(6))]);
    assert_eq!(
        nodes_of_source("2.5 in thought * 2"),
        vec![Node::Assign(
            Box::new(Node::Literal(Number::Float(2.5f64.to_bits()))),
            Box::new(Node::Eval(
                Box::new(Node::Literal(Number::Thought)),
                Operator::Mul,
                boxed(2),
            )),
        )]
    );
    assert_eq!(
        nodes_of_source("out 1 in out 2"),
        vec![Node::Assign(Box::new(read(lit(1))), Box::new(read(lit(2))))]
    );
    assert_eq!(nodes_of_source("5 out 3"), vec![read(read(lit(3)))]);
}

#[test]
fn blocks_hold_statements_and_nest() {
    assert_eq!(
        nodes_of_source("loop {\nif 1 {\nprint 2\nbreak\n}\nprint 3\n}"),
        vec![Node::Loop(block(vec![
            Node::If(boxed(1), block(vec![Node::Print(boxed(2)), Node::Break])),
            Node::Print(boxed(3)),
        ]))]
    );
    assert_eq!(nodes_of_source("loop {}"), vec![Node::Loop(block(vec![]))]);
    assert_eq!(
        nodes_of_source("if 1 { print 1 }"),
        vec![Node::If(boxed(1), block(vec![Node::Print(boxed(1))]))]
    );
    assert_eq!(
        nodes_of_source("if out 0 + 1 {\n}"),
        vec![Node::If(
            Box::new(Node::Eval(Box::new(read(lit(0))), Operator::Add, boxed(1))),
            block(vec![]),
        )]
    );
}

#[test]
fn stray_braces_in_a_block_only_have_to_balance() {
    assert_eq!(
        nodes_of_source("loop {\n{\nprint 1\n}\nprint 2\n}\nprint 3"),
        vec![
            Node::Loop(block(vec![Node::Print(boxed(1)), Node::Print(boxed(2))])),
            Node::Print(boxed(3)),
        ]
    );
    assert_eq!(
        error_of_source("loop {\n{\nprint 1\n}"),
        ParseError { kind: ParseErrorKind::MismatchedBraces(Block::Loop), index: 0 }
    );
}

#[test]
fn later_definition_of_a_macro_wins() {
    let program = parse_source("define m {\nprint 1\n}\ndefine m {\nprint 2\n}").unwrap();
    assert_eq!(program.nodes, vec![]);
    let macros = program.macros.unwrap();
    assert_eq!(macros.get("m"), Some(&vec![Node::Print(boxed(2))]));
}

#[test]
fn program_without_macros_has_no_table() {
    assert_eq!(parse_source("print 1").unwrap().macros, None);
    assert!(parse_source("define m {\n}").unwrap().macros.is_some());
}

#[test]
fn macro_table_by_hand() {
    let mut table = MacroTable::new();
    assert!(table.is_empty());
    assert_eq!(table.get("a"), None);
    table.insert("a".to_string(), block(vec![Node::Break]));
    table.insert("b".to_string(), block(vec![]));
    assert!(!table.is_empty());
    assert_eq!(table.get("a"), Some(&vec![Node::Break]));
    assert_eq!(table.get("b"), Some(&vec![]));
    table.insert("a".to_string(), block(vec![lit(1)]));
    assert_eq!(table.get("a"), Some(&vec![lit(1)]));
    assert_eq!(table.get("c"), None);
}

#[test]
fn errors_at_the_head_of_a_statement() {
    let head = |source: &str| error_of_source(source).kind;
    assert_eq!(head("in 5"), ParseErrorKind::InWithoutIndex);
    assert_eq!(head("char"), ParseErrorKind::UnexpectedKeyword);
    assert_eq!(head("+ 1"), ParseErrorKind::UnexpectedOperator(Operator::Add));
    assert_eq!(head("- 1"), ParseErrorKind::UnexpectedOperator(Operator::Sub));
    assert_eq!(head("foo"), ParseErrorKind::UnexpectedToken);
    assert_eq!(head("{"), ParseErrorKind::UnexpectedToken);
    assert_eq!(head("}"), ParseErrorKind::UnexpectedToken);
    let tokens = vec![Token::Keyword(Keyword::Thought)];
    let mut parser = Parser::new(&tokens, false);
    assert_eq!(parser.parse().unwrap_err().kind, ParseErrorKind::UnexpectedKeyword);
}

#[test]
fn errors_of_think_and_print() {
    let kind = |source: &str| error_of_source(source).kind;
    assert_eq!(kind("think"), ParseErrorKind::ThinkNothing);
    assert_eq!(kind("think print"), ParseErrorKind::ThinkOperand);
    assert_eq!(kind("think foo"), ParseErrorKind::ThinkOperand);
    assert_eq!(kind("think {"), ParseErrorKind::ThinkOperand);
    assert_eq!(kind("print"), ParseErrorKind::PrintNothing);
    assert_eq!(kind("print +"), ParseErrorKind::PrintOperand);
    assert_eq!(kind("print if"), ParseErrorKind::PrintOperand);
}

#[test]
fn errors_of_run_and_spawn() {
    let kind = |source: &str| error_of_source(source).kind;
    assert_eq!(kind("run"), ParseErrorKind::MissingMacroName);
    assert_eq!(kind("run {"), ParseErrorKind::MissingMacroName);
    assert_eq!(kind("run +"), ParseErrorKind::MissingMacroName);
    assert_eq!(kind("run print"), ParseErrorKind::ReservedMacroName);
    assert_eq!(kind("run 5"), ParseErrorKind::MacroNameIsData);
    assert_eq!(kind("run thought"), ParseErrorKind::MacroNameIsData);
    assert_eq!(kind("spawn"), ParseErrorKind::MissingMacroName);
    assert_eq!(kind("spawn loop"), ParseErrorKind::ReservedMacroName);
    assert_eq!(kind("spawn 1.5"), ParseErrorKind::MacroNameIsData);
}

#[test]
fn undefined_macro_is_no_parse_error() {
    assert_eq!(
        nodes_of_source("run nobody\nspawn nobody"),
        vec![Node::Run("nobody".to_string()), Node::Spawn("nobody".to_string())]
    );
}

#[test]
fn errors_of_expressions() {
    let kind = |source: &str| error_of_source(source).kind;
    assert_eq!(kind("print 1 +"), ParseErrorKind::MissingOperand);
    assert_eq!(kind("print 1 + print"), ParseErrorKind::MissingOperand);
    assert_eq!(kind("print 1 + +"), ParseErrorKind::MissingOperand);
    assert_eq!(kind("print out"), ParseErrorKind::MissingIndex);
    assert_eq!(kind("print out\n"), ParseErrorKind::BadIndex);
    assert_eq!(kind("print out foo"), ParseErrorKind::BadIndex);
    assert_eq!(kind("print out out"), ParseErrorKind::MissingIndex);
    assert_eq!(kind("print 1 + out {"), ParseErrorKind::BadIndex);
}

#[test]
fn errors_of_number_heads() {
    let kind = |source: &str| error_of_source(source).kind;
    assert_eq!(kind("5"), ParseErrorKind::LoneNumber);
    assert_eq!(kind("5 6"), ParseErrorKind::BadFollower);
    assert_eq!(kind("5 print 1"), ParseErrorKind::BadFollower);
    assert_eq!(kind("5 foo"), ParseErrorKind::BadFollower);
    assert_eq!(kind("5 {"), ParseErrorKind::BadFollower);
    assert_eq!(kind("5 in"), ParseErrorKind::AssignNothing);
    assert_eq!(kind("5 in print"), ParseErrorKind::NotANumber);
    assert_eq!(kind("5 in\n"), ParseErrorKind::NotANumber);
    assert_eq!(kind("5 out"), ParseErrorKind::MissingIndex);
    assert_eq!(kind("5 out foo"), ParseErrorKind::BadIndex);
    assert_eq!(kind("out"), ParseErrorKind::MissingIndex);
}

#[test]
fn errors_of_blocks() {
    let kind = |source: &str| error_of_source(source).kind;
    assert_eq!(kind("if"), ParseErrorKind::IfCondition);
    assert_eq!(kind("if {"), ParseErrorKind::IfCondition);
    assert_eq!(kind("if foo {}"), ParseErrorKind::IfCondition);
    assert_eq!(kind("if 1"), ParseErrorKind::ExpectedOpenBrace(Block::If));
    assert_eq!(kind("if 1\n{\n}"), ParseErrorKind::ExpectedOpenBrace(Block::If));
    assert_eq!(kind("if 1 {"), ParseErrorKind::MismatchedBraces(Block::If));
    assert_eq!(kind("if 1 {\nprint 1\n"), ParseErrorKind::MismatchedBraces(Block::If));
    assert_eq!(kind("if 1 {\ndefine m {\n}\n}"), ParseErrorKind::NestedMacro(Block::If));
    assert_eq!(kind("loop"), ParseErrorKind::ExpectedOpenBrace(Block::Loop));
    assert_eq!(kind("loop print"), ParseErrorKind::ExpectedOpenBrace(Block::Loop));
    assert_eq!(kind("loop {\nbreak"), ParseErrorKind::MismatchedBraces(Block::Loop));
    assert_eq!(kind("loop {\ndefine m {\n}\n}"), ParseErrorKind::NestedMacro(Block::Loop));
    assert_eq!(kind("define"), ParseErrorKind::DefineName);
    assert_eq!(kind("define print {}"), ParseErrorKind::DefineName);
    assert_eq!(kind("define 5 {}"), ParseErrorKind::DefineName);
    assert_eq!(kind("define m"), ParseErrorKind::ExpectedOpenBrace(Block::Define));
    assert_eq!(kind("define m print"), ParseErrorKind::ExpectedOpenBrace(Block::Define));
    assert_eq!(kind("define m {"), ParseErrorKind::MismatchedBraces(Block::Define));
    assert_eq!(
        kind("define m {\ndefine n {\n}\n}"),
        ParseErrorKind::NestedMacro(Block::Define)
    );
    assert_eq!(kind("loop {\nfoo\n}"), ParseErrorKind::UnexpectedToken);
    assert_eq!(kind("loop {\nif 1 {\nprint +\n}\n}"), ParseErrorKind::PrintOperand);
}

#[test]
fn error_names_the_index_of_its_statement() {
    assert_eq!(error_of_source("print +").index, 0);
    assert_eq!(error_of_source("print 1\nprint +").index, 1);
    assert_eq!(error_of_source("think\ndefine m {\n}\n\n\nloop {\nprint 1\n}\nrun 5").index, 3);
    assert_eq!(error_of_source("print 1\nloop {\nprint 2\nprint 3\nfoo\n}").index, 1);
}

#[test]
fn cursor_peeks_advances_and_steps_back() {
    let tokens = tokens_of("print 1");
    let mut parser = Parser::new(&tokens, true);
    assert!(parser.log);
    assert_eq!(parser.pos, 0);
    assert_eq!(parser.expr, 0);
    assert_eq!(parser.peek(), Some(&Token::Keyword(Keyword::Print)));
    assert_eq!(parser.advance(), Some(&Token::Data(Number::Int(1))));
    assert_eq!(parser.pos, 1);
    assert_eq!(parser.advance(), None);
    assert_eq!(parser.pos, 2);
    assert_eq!(parser.advance(), None);
    assert_eq!(parser.pos, 2);
    assert_eq!(parser.peek(), None);
    assert_eq!(parser.undo(), Some(&Token::Data(Number::Int(1))));
    assert_eq!(parser.undo(), Some(&Token::Keyword(Keyword::Print)));
    assert_eq!(parser.pos, 0);
}

#[test]
fn statements_parse_one_by_one() {
    let tokens = tokens_of("\n\nprint 1\ndefine m {\n}\nthink\n");
    let mut parser = Parser::new(&tokens, false);
    assert_eq!(
        parser.parse_expression(),
        Ok(Some(ExprType::Node(Some(Node::Print(boxed(1))))))
    );
    assert_eq!(parser.pos, 4);
    assert_eq!(
        parser.parse_expression(),
        Ok(Some(ExprType::Macro(("m".to_string(), block(vec![])))))
    );
    assert_eq!(parser.parse_expression(), Ok(Some(ExprType::Node(None))));
    assert_eq!(parser.parse_expression(), Ok(None));
    assert_eq!(parser.pos, tokens.len());
    assert_eq!(parser.parse_expression(), Ok(None));
}

#[test]
fn parts_of_statements_parse_alone() {
    let tokens = tokens_of("out out 3 + 4 char print");
    let mut parser = Parser::new(&tokens, false);
    assert_eq!(parser.parse_out(), Ok(Some(read(read(lit(3))))));
    assert_eq!(parser.pos, 3);
    parser.pos = 0;
    assert_eq!(
        parser.parse_num(Token::Keyword(Keyword::Out)),
        Ok(Some(Node::Eval(
            Box::new(read(read(lit(3)))),
            Operator::Add,
            Box::new(Node::Char(boxed(4))),
        )))
    );
    assert_eq!(parser.pos, 6);
    assert_eq!(
        parser.parse_num(Token::Keyword(Keyword::Print)),
        Err(ParseError { kind: ParseErrorKind::NotANumber, index: 0 })
    );
    parser.pos = 7;
    assert_eq!(
        parser.parse_num(Token::Data(Number::Int(1))),
        Err(ParseError { kind: ParseErrorKind::NotANumber, index: 0 })
    );
}

#[test]
fn keyword_statements_parse_alone() {
    let tokens = tokens_of("think 1 print 2 run a spawn b if 1 {} loop {} define c {} 5 in 6");
    let mut parser = Parser::new(&tokens, false);
    assert_eq!(parser.parse_think(), Ok(Some(Node::Think(boxed(1)))));
    assert_eq!(parser.parse_print(), Ok(Some(Node::Print(boxed(2)))));
    assert_eq!(parser.parse_run(), Ok(Some(Node::Run("a".to_string()))));
    assert_eq!(parser.parse_spawn(), Ok(Some(Node::Spawn("b".to_string()))));
    assert_eq!(parser.parse_if(), Ok(Some(Node::If(boxed(1), block(vec![])))));
    assert_eq!(parser.parse_loop(), Ok(Some(Node::Loop(block(vec![])))));
    assert_eq!(parser.parse_def(), Ok(("c".to_string(), block(vec![]))));
    assert_eq!(parser.parse_num_head(), Ok(Some(Node::Assign(boxed(5), boxed(6)))));
    assert_eq!(parser.pos, tokens.len());
}

#[test]
fn error_message_of_the_parser_names_the_statement() {
    let tokens = tokens_of("print 1");
    let mut parser = Parser::new(&tokens, false);
    parser.expr = 12;
    assert_eq!(parser.err("Nothing to do"), "Nothing to do: Found at expression #12");
}

#[test]
fn literal_node_is_a_number() {
    assert_eq!(lit(4).to_num(), Ok(Number::Int(4)));
    assert!(Node::Break.to_num().is_err());
    assert!(read(lit(4)).to_num().is_err());
}

#[test]
fn copy_of_a_node_equals_the_node() {
    let nodes = nodes_of_source(
        "loop {\nif out 1 + 2.5 char {\nprint thought\nrun m\nspawn m\n3 in 4\nbreak\n}\nthink 1\n}\n",
    );
    assert_eq!(nodes.len(), 1);
    assert_eq!(nodes[0].clone(), nodes[0]);
    assert_eq!(naqua::parse::node::clone_node(&nodes[0]), nodes[0]);
    assert_eq!(naqua::parse::node::clone_nodes(&nodes), nodes);
    let mut table = MacroTable::new();
    table.insert("m".to_string(), block(nodes));
    assert_eq!(table.clone(), table);
}
