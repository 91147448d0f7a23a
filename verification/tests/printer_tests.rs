use rlox::ast::Expr;
use rlox::printer::AstFormatter;
use rlox::token::{Literal, Token, TokenKind};

#[test]
fn should_print_literal_expr() {
    let expressions: Vec<(Expr, &str)> = vec![
        (Expr::new_literal(Literal::String("test".to_string())), "\"test\""),
        (Expr::new_literal(Literal::Number(197.0f64.to_bits())), "197"),
        (Expr::new_literal(Literal::Boolean(false)), "false"),
        (Expr::new_literal(Literal::Nil), "Nil"),
    ];

    let ast_formatter: AstFormatter = AstFormatter {};

    for (lit, expected) in expressions {
        let repr = ast_formatter.format(&lit);
        assert_eq!(repr, expected);
    }
}

#[test]
fn should_print_unary_expr() {
    let ast_formatter: AstFormatter = AstFormatter {};

    let right = Expr::new_literal(Literal::Number(432.1f64.to_bits()));
    let unary_expr = &Expr::new_unary(Token::new(TokenKind::Minus, "-", None, 0), right);

    let repr = ast_formatter.format(unary_expr);

    assert_eq!(repr, "(- 432.1)");
}

#[test]
fn should_print_grouping_expr() {
    let ast_formatter: AstFormatter = AstFormatter {};

    let right = Expr::new_literal(Literal::Number(432.1f64.to_bits()));
    let unary_expr = Expr::new_unary(Token::new(TokenKind::Minus, "-", None, 0), right);

    let grouping = Expr::new_grouping(unary_expr);

    let repr = ast_formatter.format(&grouping);

    assert_eq!(repr, "(group (- 432.1))");
}

#[test]
fn should_print_binary_expr() {
    let ast_formatter: AstFormatter = AstFormatter {};

    let minus = Token::new(TokenKind::Minus, "-", None, 0);
    let left = Expr::new_unary(minus, Expr::new_literal(Literal::Number(123.0f64.to_bits())));

    let operator = Token::new(TokenKind::Star, "*", None, 0);

    let right = Expr::new_grouping(Expr::new_literal(Literal::Number(45.67f64.to_bits())));

    let binary_expr = Expr::new_binary(left, operator, right);
    let repr = ast_formatter.format(&binary_expr);

    assert_eq!(repr, "(* (- 123) (group 45.67))");
}
