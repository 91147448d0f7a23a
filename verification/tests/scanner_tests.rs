use rlox::error::ErrorHandler;
use rlox::scanner::Scanner;
use rlox::token::{Keyword, Literal, TokenKind};

fn scan(source: &str) -> (Vec<rlox::token::Token>, Scanner) {
    let mut scanner = Scanner::new(source.to_string(), ErrorHandler::new());
    let tokens = scanner.scan_tokens();
    (tokens, scanner)
}

#[test]
fn should_get_tokens() {
    let expected_tokens: Vec<(&str, TokenKind)> = vec![
        ("(", TokenKind::LeftParen),
        (")", TokenKind::RightParen),
        ("{", TokenKind::LeftBrace),
        ("}", TokenKind::RightBrace),
        (",", TokenKind::Comma),
        (".", TokenKind::Dot),
        ("-", TokenKind::Minus),
        ("+", TokenKind::Plus),
        (";", TokenKind::Semicolon),
        ("*", TokenKind::Star),
        ("!", TokenKind::Bang),
        ("!=", TokenKind::BangEqual),
        ("=", TokenKind::Equal),
        ("==", TokenKind::EqualEqual),
        ("<", TokenKind::Less),
        ("<=", TokenKind::LessEqual),
        (">", TokenKind::Greater),
        (">=", TokenKind::GreaterEqual),
        ("/", TokenKind::Slash),
    ];

    for (symbol, kind) in expected_tokens {
        let (tokens, scanner) = scan(symbol);
        assert_eq!(kind, tokens[0].kind);
        assert_eq!(scanner.error_handler.had_error, false);
    }
}

#[test]
fn should_advance_on_newline() {
    let (_tokens, scanner) = scan("*\n*");
    assert_eq!(scanner.line, 2);
}

#[test]
fn should_ignore_commented_line() {
    let (_tokens, scanner) = scan("// These are \n //coments!");
    assert_eq!(scanner.error_handler.had_error, false);
}

#[test]
fn should_get_string_literal() {
    let (tokens, scanner) = scan("\"foo\"");
    assert_eq!(tokens[0].kind, TokenKind::String);
    assert_eq!(tokens[0].literal, Some(Literal::String("foo".to_string())));
    assert_eq!(tokens[0].lexeme, "\"foo\"");
    assert_eq!(scanner.error_handler.had_error, false);
}

#[test]
fn should_get_number_literal() {
    let (tokens, scanner) = scan("123\n456.789");
    let expected_numbers = [123.0f64, 456.789f64];

    for (i, token) in tokens[0..2].iter().enumerate() {
        assert_eq!(token.kind, TokenKind::Number);
        assert_eq!(token.literal, Some(Literal::Number(expected_numbers[i].to_bits())));
    }
    assert_eq!(scanner.error_handler.had_error, false);
}

#[test]
fn should_get_identifier() {
    let (tokens, scanner) = scan("rlox");
    assert_eq!(tokens[0].kind, TokenKind::Identifier);
    assert_eq!(tokens[0].literal, None);
    assert_eq!(tokens[0].lexeme, "rlox");
    assert_eq!(scanner.error_handler.had_error, false);
}

#[test]
fn should_get_reserved_keywords() {
    let expected_tokens: Vec<Keyword> = vec![
        Keyword::new("and", TokenKind::And),
        Keyword::new("class", TokenKind::Class),
        Keyword::new("else", TokenKind::Else),
        Keyword::new("false", TokenKind::False),
        Keyword::new("for", TokenKind::For),
        Keyword::new("fun", TokenKind::Fun),
        Keyword::new("if", TokenKind::If),
        Keyword::new("nil", TokenKind::Nil),
        Keyword::new("or", TokenKind::Or),
        Keyword::new("print", TokenKind::Print),
        Keyword::new("return", TokenKind::Return),
        Keyword::new("super", TokenKind::Super),
        Keyword::new("this", TokenKind::This),
        Keyword::new("true", TokenKind::True),
        Keyword::new("var", TokenKind::Var),
        Keyword::new("while", TokenKind::While),
    ];

    for expected_token in expected_tokens {
        let (tokens, scanner) = scan(expected_token.key);
        assert_eq!(expected_token.value, tokens[0].kind);
        assert_eq!(scanner.error_handler.had_error, false);
    }
}

#[test]
fn should_get_error_notification() {
    // Cat emoji for invalid lexeme
    let (_tokens, scanner) = scan("\u{1F431}");
    assert_eq!(scanner.error_handler.had_error, true);
}

#[test]
fn should_get_unterminated_string_notification() {
    let (_tokens, scanner) = scan("\"");
    assert_eq!(scanner.error_handler.had_error, true);
    match &scanner.error_handler.diagnostics[0] {
        rlox::error::Diagnostic::Scan { message, .. } => {
            assert_eq!(message, "Unterminated string.");
        }
        other => panic!("expected a scan diagnostic, got {:?}", other),
    }
}

#[test]
fn scanner_should_get_tokens() {
    let expected_tokens: Vec<(&str, TokenKind)> = vec![
        ("(", TokenKind::LeftParen),
        (")", TokenKind::RightParen),
        ("!", TokenKind::Bang),
        ("!=", TokenKind::BangEqual),
        ("<=", TokenKind::LessEqual),
        (">=", TokenKind::GreaterEqual),
        ("/", TokenKind::Slash),
    ];
    for (symbol, kind) in expected_tokens {
        let (tokens, scanner) = scan(symbol);
        assert_eq!(kind, tokens[0].kind);
        assert_eq!(tokens[1].kind, TokenKind::EndOfFile);
        assert_eq!(scanner.error_handler.had_error, false);
    }
}

#[test]
fn scanner_should_advance_on_newline() {
    let (_tokens, scanner) = scan("*\n*");
    assert_eq!(scanner.line, 2);
}

#[test]
fn scanner_should_ignore_commented_line() {
    let (tokens, scanner) = scan("// These are \n //coments!");
    assert_eq!(scanner.error_handler.had_error, false);
    assert_eq!(tokens.len(), 1);
    assert_eq!(tokens[0].kind, TokenKind::EndOfFile);
}

#[test]
fn scanner_should_get_string_literal() {
    let (tokens, scanner) = scan("\"foo\"");
    assert_eq!(tokens[0].kind, TokenKind::String);
    assert_eq!(tokens[0].literal, Some(Literal::String("foo".to_string())));
    assert_eq!(scanner.error_handler.had_error, false);
    assert_eq!(tokens.len(), 2);
}

#[test]
fn scanner_should_get_number_literal() {
    let (tokens, scanner) = scan("123\n456.789");
    assert_eq!(tokens[0].kind, TokenKind::Number);
    assert_eq!(tokens[0].literal, Some(Literal::Number(123.0f64.to_bits())));
    assert_eq!(tokens[1].literal, Some(Literal::Number(456.789f64.to_bits())));
    assert_eq!(scanner.error_handler.had_error, false);
}

#[test]
fn scanner_should_get_error_notification() {
    let (_tokens, scanner) = scan("\u{1F431}");
    assert_eq!(scanner.error_handler.had_error, true);
}
