//! Re-parsing a rendered expression: for every expression form whose
//! rendering is itself source syntax — literals, unary expressions,
//! logical expressions and assignments — evaluating the re-parsed
//! rendering gives the value of the original. (The operator-first
//! rendering of binary, call and grouping expressions is not source
//! syntax, so the round trip cannot apply to them.)

use rlox::error::ErrorHandler;
use rlox::interpreter::Interpreter;
use rlox::parser::Parser;
use rlox::scanner::Scanner;
use rlox::ast::Stmt;

const FUEL: u64 = 1_000_000;

fn eval_expression(source: &str) -> rlox::value::Interpretable {
    let mut scanner = Scanner::new(format!("{};", source), ErrorHandler::new());
    let tokens = scanner.scan_tokens();
    assert!(!scanner.error_handler.had_error, "scanning failed: {}", source);
    let mut parser = Parser::new(tokens, scanner.error_handler);
    let statements = parser.parse().expect("Parsing failed");
    assert!(!parser.error_handler.had_error, "parsing failed: {}", source);
    let mut interpreter = Interpreter::new();
    match &statements[0] {
        Stmt::ExprStmt { expr } => interpreter.evaluate(expr, FUEL).expect("evaluation failed"),
        other => panic!("expected an expression statement, got {:?}", other),
    }
}

fn pretty(source: &str) -> String {
    let mut scanner = Scanner::new(format!("{};", source), ErrorHandler::new());
    let tokens = scanner.scan_tokens();
    let mut parser = Parser::new(tokens, scanner.error_handler);
    let statements = parser.parse().expect("Parsing failed");
    match &statements[0] {
        Stmt::ExprStmt { expr } => expr.repr(),
        other => panic!("expected an expression statement, got {:?}", other),
    }
}

#[test]
fn reparsed_renderings_evaluate_to_the_same_value() {
    // `nil` is left out: its rendering is the capitalized `Nil` of the
    // tree formatter, which is not the keyword.
    let sources = vec!["432.1", "0.5", "true", "false", "-432.1", "!0", "1 and 2", "0 or 7"];
    for source in sources {
        let original = eval_expression(source);
        let rendered = pretty(source);
        let again = eval_expression(&rendered);
        assert!(
            original.equals(&again),
            "{} rendered as {} but evaluated differently",
            source,
            rendered
        );
    }
}

#[test]
fn rendering_numbers_reads_back_exactly() {
    for v in [
        0.1f64,
        432.1,
        1.0 / 3.0,
        123456789.25,
        5e-324,
        3628800.0,
        4503599627370495.0,
        -0.0,
        0.0,
        -7.5,
    ] {
        let printed = rlox::value::Interpretable::Number(v.to_bits()).repr();
        assert_eq!(printed, format!("{}", v));
    }
}
