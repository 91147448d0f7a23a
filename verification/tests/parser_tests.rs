use rlox::ast::{Expr, Stmt};
use rlox::error::ErrorHandler;
use rlox::parser::Parser;
use rlox::scanner::Scanner;
use rlox::token::{Literal, Token, TokenKind};

fn parse(source: &str) -> (Vec<Stmt>, ErrorHandler) {
    let mut scanner = Scanner::new(source.to_string(), ErrorHandler::new());
    let tokens = scanner.scan_tokens();
    assert!(!scanner.error_handler.had_error, "scanning failed");
    let mut parser = Parser::new(tokens, scanner.error_handler);
    let statements = parser.parse().expect("Parsing failed");
    (statements, parser.error_handler)
}

#[test]
fn should_parse_expression() {
    let (statements, handler) = parse("1 + 2;");
    assert!(!handler.had_error);

    let stmt = &statements[0];
    match stmt {
        Stmt::ExprStmt { expr } => {
            let left = Expr::new_literal(Literal::Number(1.0f64.to_bits()));
            let operator = Token::new(TokenKind::Plus, "+", None, 1);
            let right = Expr::new_literal(Literal::Number(2.0f64.to_bits()));

            assert_eq!(**expr, Expr::new_binary(left, operator, right));
        }

        _ => panic!("Got non-expression statement"),
    }
}

#[test]
fn parses_variable_declarations_and_blocks() {
    let (statements, handler) = parse("var a = 1; { print a; }");
    assert!(!handler.had_error);
    assert_eq!(statements.len(), 2);
    assert!(matches!(statements[0], Stmt::VarStmt { .. }));
    assert!(matches!(statements[1], Stmt::BlockStmt { .. }));
}

#[test]
fn desugars_for_into_while() {
    let (statements, handler) = parse("for (var i = 0; i < 3; i = i + 1) print i;");
    assert!(!handler.had_error);
    assert_eq!(statements.len(), 1);
    match &statements[0] {
        Stmt::BlockStmt { declarations } => {
            assert_eq!(declarations.len(), 2);
            assert!(matches!(declarations[0], Stmt::VarStmt { .. }));
            assert!(matches!(declarations[1], Stmt::WhileStmt { .. }));
        }
        other => panic!("expected a block, got {:?}", other),
    }
}

#[test]
fn reports_invalid_assignment_target() {
    let (_statements, handler) = parse("1 = 2;");
    assert!(handler.had_error);
    match &handler.diagnostics[0] {
        rlox::error::Diagnostic::Parse { message, location, .. } => {
            assert_eq!(message, "Invalid assignment target.");
            assert_eq!(location, " at '='");
        }
        other => panic!("expected a parse diagnostic, got {:?}", other),
    }
}

#[test]
fn recovers_after_malformed_statement() {
    let (statements, handler) = parse("var = 1; print 2;");
    assert!(handler.had_error);
    assert_eq!(handler.diagnostics.len(), 1);
    assert_eq!(statements.len(), 1);
    assert!(matches!(statements[0], Stmt::PrintStmt { .. }));
}

#[test]
fn parses_function_declarations() {
    let (statements, handler) = parse("fun add(a, b) { return a + b; }");
    assert!(!handler.had_error);
    match &statements[0] {
        Stmt::FunctionStmt { name, parameters, body } => {
            assert_eq!(name.lexeme, "add");
            assert_eq!(parameters.len(), 2);
            assert_eq!(body.len(), 1);
        }
        other => panic!("expected a function declaration, got {:?}", other),
    }
}
