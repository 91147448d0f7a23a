use rlox::error::{Diagnostic, ErrorHandler, RuntimeEvent};
use rlox::interpreter::Interpreter;
use rlox::parser::Parser;
use rlox::scanner::Scanner;

const FUEL: u64 = 1_000_000;

fn run(source: &str) -> (Vec<String>, Vec<Diagnostic>, bool) {
    let mut scanner = Scanner::new(source.to_string(), ErrorHandler::new());
    let tokens = scanner.scan_tokens();
    assert!(!scanner.error_handler.had_error, "scanning failed");
    let mut parser = Parser::new(tokens, scanner.error_handler);
    let statements = parser.parse().expect("Parsing failed");
    assert!(!parser.error_handler.had_error, "parsing failed");
    let mut interpreter = Interpreter::new();
    interpreter.interpret(&statements, FUEL);
    let had_error = interpreter.error_handler.had_error;
    (interpreter.output, interpreter.error_handler.diagnostics, had_error)
}

fn outputs(source: &str) -> Vec<String> {
    let (out, diags, had_error) = run(source);
    assert!(!had_error, "unexpected runtime error: {:?}", diags);
    out
}

#[test]
fn arithmetic_matches_double_precision() {
    assert_eq!(outputs("print 1 / 2;"), vec!["0.5"]);
    assert_eq!(outputs("print 1 + 2;"), vec!["3"]);
    assert_eq!(outputs("print 7 / 2;"), vec!["3.5"]);
    assert_eq!(outputs("print 2 * 3.25;"), vec![format!("{}", 2.0f64 * 3.25)]);
    assert_eq!(outputs("print 1 - 0.75;"), vec![format!("{}", 1.0f64 - 0.75)]);
    assert_eq!(outputs("print 0.1 + 0.2;"), vec![format!("{}", 0.1f64 + 0.2)]);
    assert_eq!(outputs("print 432.1;"), vec![format!("{}", 432.1f64)]);
    assert_eq!(outputs("print -5;"), vec![format!("{}", -5.0f64)]);
    assert_eq!(outputs("print 1 / 0;"), vec!["inf"]);
    assert_eq!(outputs("print 0 / 0 == 0 / 0;"), vec!["false"]);
}

#[test]
fn comparisons_match_double_precision() {
    assert_eq!(outputs("print 1 < 2;"), vec!["true"]);
    assert_eq!(outputs("print 2 <= 2;"), vec!["true"]);
    assert_eq!(outputs("print 1 > 2;"), vec!["false"]);
    assert_eq!(outputs("print 2 >= 3;"), vec!["false"]);
    assert_eq!(outputs("print 0 == -0;"), vec!["true"]);
    assert_eq!(outputs("print -1 < -0.5;"), vec!["true"]);
}

#[test]
fn plus_concatenates_strings_and_rejects_mixes() {
    assert_eq!(outputs("print \"foo\" + \"bar\";"), vec!["\"foobar\""]);
    let (out, diags, had_error) = run("print 1 + \"a\";");
    assert!(had_error);
    assert!(out.is_empty());
    assert_eq!(diags.len(), 1);
}

#[test]
fn truthiness_follows_nil_and_false_only() {
    assert_eq!(outputs("print !0;"), vec!["false"]);
    assert_eq!(outputs("print !nil;"), vec!["true"]);
    assert_eq!(outputs("print !false;"), vec!["true"]);
    assert_eq!(outputs("print !\"\";"), vec!["false"]);
    assert_eq!(outputs("if (\"\") print 111;"), vec!["111"]);
    assert_eq!(outputs("if (0) print 222;"), vec!["222"]);
}

#[test]
fn equality_is_type_strict() {
    assert_eq!(outputs("print 1 == \"1\";"), vec!["false"]);
    assert_eq!(outputs("print nil == nil;"), vec!["true"]);
    assert_eq!(outputs("print \"a\" == \"a\";"), vec!["true"]);
    assert_eq!(outputs("print 1 != 2;"), vec!["true"]);
}

#[test]
fn logical_operators_short_circuit_to_operand_values() {
    assert_eq!(outputs("print nil or \"kept\";"), vec!["\"kept\""]);
    assert_eq!(outputs("print 1 or 2;"), vec!["1"]);
    assert_eq!(outputs("print nil and 2;"), vec!["nil"]);
    assert_eq!(outputs("print 1 and 2;"), vec!["2"]);
    // The right side must not run when the left decides.
    assert_eq!(outputs("var a = 1; false and (a = 2); print a;"), vec!["1"]);
}

#[test]
fn block_scoping_shadows_without_mutating() {
    assert_eq!(
        outputs("var a = 1; { var a = a + 1; print a; } print a;"),
        vec!["2", "1"]
    );
    let (out, _diags, had_error) = run("{ var b = 2; } print b;");
    assert!(had_error, "a block-local name must be invisible after the block");
    assert!(out.is_empty());
}

#[test]
fn assignment_reaches_enclosing_scope() {
    assert_eq!(outputs("var a = 1; { a = 5; } print a;"), vec!["5"]);
}

#[test]
fn while_and_for_loops_run() {
    assert_eq!(
        outputs("var i = 0; while (i < 3) { print i; i = i + 1; }"),
        vec!["0", "1", "2"]
    );
    assert_eq!(
        outputs("for (var i = 0; i < 3; i = i + 1) print i;"),
        vec!["0", "1", "2"]
    );
}

#[test]
fn closures_capture_their_defining_scope() {
    assert_eq!(
        outputs(
            "fun make() { var x = 1; fun get() { return x; } return get; } \
             var g = make(); print g();"
        ),
        vec!["1"]
    );
    // A later mutation of a captured variable is observed.
    assert_eq!(
        outputs("var x = 1; fun get() { return x; } x = 5; print get();"),
        vec!["5"]
    );
    // Shared mutable state survives between calls of the closure.
    assert_eq!(
        outputs(
            "fun counter() { var n = 0; fun inc() { n = n + 1; return n; } return inc; } \
             var c = counter(); print c(); print c();"
        ),
        vec!["1", "2"]
    );
}

#[test]
fn recursion_computes_factorial() {
    assert_eq!(
        outputs("fun f(n) { if (n <= 1) return 1; return n * f(n - 1); } print f(10);"),
        vec!["3628800"]
    );
}

#[test]
fn functions_without_return_yield_nil() {
    assert_eq!(outputs("fun f() {} print f();"), vec!["nil"]);
    assert_eq!(outputs("fun f() { return; } print f();"), vec!["nil"]);
}

#[test]
fn runtime_errors_abort_statement_but_not_program() {
    let (out, diags, had_error) = run("print x; print 2;");
    assert!(had_error);
    assert_eq!(out, vec!["2"]);
    assert_eq!(diags.len(), 1);
    match &diags[0] {
        Diagnostic::Runtime { event: RuntimeEvent::InterpreterError(token, message) } => {
            assert_eq!(token.lexeme, "x");
            assert_eq!(message, "Undefined variable 'x'.");
        }
        other => panic!("expected a runtime diagnostic, got {:?}", other),
    }
}

#[test]
fn arity_and_callability_are_checked() {
    let (_out, diags, had_error) = run("fun f(a) { return a; } f(1, 2);");
    assert!(had_error);
    match &diags[0] {
        Diagnostic::Runtime { event: RuntimeEvent::InterpreterError(_, message) } => {
            assert_eq!(message, "Expected 1  arguments, but got 2.");
        }
        other => panic!("expected a runtime diagnostic, got {:?}", other),
    }

    let (_out, diags, had_error) = run("var a = 1; a();");
    assert!(had_error);
    match &diags[0] {
        Diagnostic::Runtime { event: RuntimeEvent::InterpreterError(_, message) } => {
            assert_eq!(message, "Can only call functions and classes");
        }
        other => panic!("expected a runtime diagnostic, got {:?}", other),
    }
}

#[test]
fn unary_minus_requires_a_number() {
    let (_out, diags, had_error) = run("print -\"a\";");
    assert!(had_error);
    match &diags[0] {
        Diagnostic::Runtime { event: RuntimeEvent::InterpreterError(_, message) } => {
            assert_eq!(message, "Cannot handle '-' on non-number type");
        }
        other => panic!("expected a runtime diagnostic, got {:?}", other),
    }
}

#[test]
fn exhausted_budget_is_reported_not_looped() {
    let mut scanner = Scanner::new("while (true) {}".to_string(), ErrorHandler::new());
    let tokens = scanner.scan_tokens();
    let mut parser = Parser::new(tokens, scanner.error_handler);
    let statements = parser.parse().expect("Parsing failed");
    let mut interpreter = Interpreter::new();
    interpreter.interpret(&statements, 1000);
    assert!(interpreter.error_handler.had_error);
    assert!(matches!(
        interpreter.error_handler.diagnostics[0],
        Diagnostic::Runtime { event: RuntimeEvent::OutOfFuel }
    ));
}

#[test]
fn clock_returns_the_host_reading() {
    let mut scanner = Scanner::new("print clock();".to_string(), ErrorHandler::new());
    let tokens = scanner.scan_tokens();
    let mut parser = Parser::new(tokens, scanner.error_handler);
    let statements = parser.parse().expect("Parsing failed");
    let mut interpreter = Interpreter::new();
    interpreter.set_clock(123.0f64.to_bits());
    interpreter.interpret(&statements, FUEL);
    assert_eq!(interpreter.output, vec!["123"]);
}

#[test]
fn top_level_return_is_reported() {
    let (_out, diags, had_error) = run("return 5;");
    assert!(had_error);
    assert!(matches!(
        diags[0],
        Diagnostic::Runtime { event: RuntimeEvent::Return(_) }
    ));
}

#[test]
fn printed_values_take_their_display_forms() {
    assert_eq!(outputs("print \"hi\";"), vec!["\"hi\""]);
    assert_eq!(outputs("print true;"), vec!["true"]);
    assert_eq!(outputs("print nil;"), vec!["nil"]);
    assert_eq!(outputs("fun f() {} print f;"), vec!["<fn f>"]);
    assert_eq!(outputs("print clock;"), vec!["<fn native>"]);
}
