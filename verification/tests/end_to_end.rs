use naqua::parse::parser::Parser;
use naqua::runtime::eval::EvalType;
use naqua::runtime::runtime::Runner;
use naqua::tokenize::tokenizer::Tokenizer;

fn run_source(source: &str) -> Vec<EvalType> {
    let mut tokenizer = Tokenizer::new(source.to_string());
    let tokens = tokenizer.tokenize().expect("tokens");
    let mut parser = Parser::new(&tokens, false);
    let program = parser.parse().expect("program");
    let mut runner = Runner::new();
    runner.run(program.nodes, program.macros).expect("run");
    runner.output
}

#[test]
fn if_on_matching_thought_then_print() {
    let out = run_source("think 3\nif 3 {\nprint 1\n}\nprint 2");
    assert_eq!(out, vec![EvalType::Int(1), EvalType::Int(2)]);
}
