use rlisp::data::{Data, DataKind};
use rlisp::error::{read_source, Error};
use rlisp::interpreter::{Interpreter, InterpreterError, InterpreterErrorKind};
use rlisp::lexer::{lex, LexErrorKind};
use rlisp::parser::{parse, ParseError};

fn run(line: &str, interpreter: &mut Interpreter) -> Result<Data, InterpreterError> {
    let ast = read_source(line).unwrap();
    interpreter.eval(&Interpreter::ast2data(&ast))
}

fn run_ok(line: &str, interpreter: &mut Interpreter) -> Data {
    run(line, interpreter).unwrap()
}

fn check(line: &str, expected: DataKind, interpreter: &mut Interpreter) {
    let result = run_ok(line, interpreter);
    assert!(result.assert_eq(&expected));
}

#[test]
fn pair_round_trip() {
    let mut interpreter = Interpreter::new();
    check("(car (cons 1 2))", DataKind::Number(1), &mut interpreter);
    check("(cdr (cons 1 2))", DataKind::Number(2), &mut interpreter);
    check("(car (cons 41 7))", DataKind::Number(41), &mut interpreter);
    check("(cdr (cons 41 7))", DataKind::Number(7), &mut interpreter);
}

#[test]
fn quote_is_desugar() {
    let mut interpreter = Interpreter::new();
    // eval('X) returns exactly what the desugarer made of X
    let quoted = run_ok("'(1 . 2)", &mut interpreter);
    let plain = Interpreter::ast2data(&read_source("(1 . 2)").unwrap());
    assert!(quoted.assert_eq(&plain.value));
    check("'1", DataKind::Number(1), &mut interpreter);
}

#[test]
fn if_short_circuits() {
    let mut interpreter = Interpreter::new();
    // the non-taken branch would fail with a division by zero if evaluated
    check("(if true 1 (/ 1 0))", DataKind::Number(1), &mut interpreter);
    check("(if false (/ 1 0) 2)", DataKind::Number(2), &mut interpreter);
    // a non-boolean condition is rejected
    let e = run("(if 1 2 3)", &mut interpreter).unwrap_err();
    assert!(matches!(e.value, InterpreterErrorKind::InvalidArguments));
}

#[test]
fn define_then_reference() {
    let mut interpreter = Interpreter::new();
    check("(define p 1)", DataKind::Nil, &mut interpreter);
    check("p", DataKind::Number(1), &mut interpreter);
    // last write wins
    check("(define p 2)", DataKind::Nil, &mut interpreter);
    check("p", DataKind::Number(2), &mut interpreter);
}

#[test]
fn lambda_direct_application() {
    let mut interpreter = Interpreter::new();
    check("((lambda (n) n) 5)", DataKind::Number(5), &mut interpreter);
    check("((lambda (a) a) true)", DataKind::Boolean(true), &mut interpreter);
    check("((lambda (a b) (+ a b)) 2 3)", DataKind::Number(5), &mut interpreter);
}

#[test]
fn lambda_arity_checked() {
    let mut interpreter = Interpreter::new();
    let e = run("((lambda (n) n) 1 2)", &mut interpreter).unwrap_err();
    assert!(matches!(e.value, InterpreterErrorKind::InvalidArguments));
    run_ok("(define g (lambda (a b) a))", &mut interpreter);
    let e = run("(g 1)", &mut interpreter).unwrap_err();
    assert!(matches!(e.value, InterpreterErrorKind::InvalidArguments));
}

#[test]
fn lambda_scope_isolated() {
    let mut interpreter = Interpreter::new();
    run_ok("(define f (lambda (n) n))", &mut interpreter);
    check("(f 5)", DataKind::Number(5), &mut interpreter);
    // the parameter name did not leak into the enclosing scope
    let e = run("n", &mut interpreter).unwrap_err();
    match e.value {
        InterpreterErrorKind::SymbolNotFound(name) => assert_eq!(name, "n"),
        other => panic!("unexpected error: {:?}", other),
    }
    // a define inside a call frame does not leak either
    run_ok("(define h (lambda (a) (define inner a)))", &mut interpreter);
    run_ok("(h 3)", &mut interpreter);
    let e = run("inner", &mut interpreter).unwrap_err();
    assert!(matches!(e.value, InterpreterErrorKind::SymbolNotFound(_)));
}

#[test]
fn division_by_zero_errors() {
    let mut interpreter = Interpreter::new();
    let e = run("(/ 3 0)", &mut interpreter).unwrap_err();
    assert!(matches!(e.value, InterpreterErrorKind::DivisionByZero));
    let e = run("(% 3 0)", &mut interpreter).unwrap_err();
    assert!(matches!(e.value, InterpreterErrorKind::DivisionByZero));
    let e = run("(car 1)", &mut interpreter).unwrap_err();
    assert!(matches!(e.value, InterpreterErrorKind::InvalidArguments));
    let e = run("q", &mut interpreter).unwrap_err();
    match e.value {
        InterpreterErrorKind::SymbolNotFound(name) => assert_eq!(name, "q"),
        other => panic!("unexpected error: {:?}", other),
    }
}

#[test]
fn car_of_non_symbol_head_errors() {
    let mut interpreter = Interpreter::new();
    let e = run("(1 2)", &mut interpreter).unwrap_err();
    assert!(matches!(e.value, InterpreterErrorKind::CarNotApplicable));
    let e = run("(u 1)", &mut interpreter).unwrap_err();
    assert!(matches!(e.value, InterpreterErrorKind::CarNotApplicable));
}

#[test]
fn end_to_end() {
    let mut interpreter = Interpreter::new();
    check("(+ 1 (* 2 3))", DataKind::Number(7), &mut interpreter);
    run_ok("(define c (cons 1 2))", &mut interpreter);
    check("(car c)", DataKind::Number(1), &mut interpreter);
    check("(cdr c)", DataKind::Number(2), &mut interpreter);
}

#[test]
fn wrapping_arithmetic() {
    let mut interpreter = Interpreter::new();
    check("(+ 2147483647 1)", DataKind::Number(i32::MIN), &mut interpreter);
    check("(- 0 2147483647)", DataKind::Number(-2147483647), &mut interpreter);
    check("(* 65536 65536)", DataKind::Number(0), &mut interpreter);
    // the one overflowing division wraps, the remainder is zero
    check("(/ (- 0 2147483648) (- 0 1))", DataKind::Number(i32::MIN), &mut interpreter);
    check("(% (- 0 2147483648) (- 0 1))", DataKind::Number(0), &mut interpreter);
    // shift amounts are taken modulo 32
    check("(shl 1 33)", DataKind::Number(2), &mut interpreter);
    check("(shr (- 0 8) 1)", DataKind::Number(-4), &mut interpreter);
}

#[test]
fn equality_with_nil() {
    let mut interpreter = Interpreter::new();
    check("(eq nil nil)", DataKind::Boolean(true), &mut interpreter);
    check("(ne nil nil)", DataKind::Boolean(false), &mut interpreter);
    check("(eq nil 1)", DataKind::Boolean(false), &mut interpreter);
    check("(ne 1 nil)", DataKind::Boolean(true), &mut interpreter);
    let e = run("(eq true 1)", &mut interpreter).unwrap_err();
    assert!(matches!(e.value, InterpreterErrorKind::InvalidArguments));
}

#[test]
fn atom_of_compounds() {
    let mut interpreter = Interpreter::new();
    check("(atom (cons 1 2))", DataKind::Boolean(false), &mut interpreter);
    check("(atom (lambda (a) a))", DataKind::Boolean(false), &mut interpreter);
    check("(atom nil)", DataKind::Boolean(true), &mut interpreter);
}

#[test]
fn bitwise_and_comparisons() {
    let mut interpreter = Interpreter::new();
    check("(^ 6 3)", DataKind::Number(5), &mut interpreter);
    check("(^ true true)", DataKind::Boolean(false), &mut interpreter);
    check("(le 2 2)", DataKind::Boolean(true), &mut interpreter);
    check("(ge 2 3)", DataKind::Boolean(false), &mut interpreter);
    check("(lt 2 3)", DataKind::Boolean(true), &mut interpreter);
    check("(gt 2 3)", DataKind::Boolean(false), &mut interpreter);
    check("(= 4 4)", DataKind::Boolean(true), &mut interpreter);
}

#[test]
fn lexer_rejects_stray_bytes() {
    let err = lex("#").unwrap_err();
    assert!(matches!(err.value, LexErrorKind::InvalidChar('#')));
    let err = lex("(+ 1 $)").unwrap_err();
    assert!(matches!(err.value, LexErrorKind::InvalidChar('$')));
}

#[test]
fn number_literals_wrap() {
    let mut interpreter = Interpreter::new();
    check("4294967296", DataKind::Number(0), &mut interpreter);
    check("2147483648", DataKind::Number(i32::MIN), &mut interpreter);
}

#[test]
fn parser_reports_errors() {
    let tokens = lex("(1").unwrap();
    assert!(matches!(parse(tokens).unwrap_err(), ParseError::Eof));
    let tokens = lex("1 2").unwrap();
    assert!(matches!(parse(tokens).unwrap_err(), ParseError::RedundantExpression(_)));
    let tokens = lex(")").unwrap();
    assert!(matches!(parse(tokens).unwrap_err(), ParseError::NotExpression(_)));
    let tokens = lex("(1 . 2 3)").unwrap();
    assert!(matches!(parse(tokens).unwrap_err(), ParseError::UnclosedOpenParen(_)));
    assert!(matches!(read_source("#"), Err(Error::Lexer(_))));
    assert!(matches!(read_source("(1"), Err(Error::Parser(_))));
}

#[test]
fn keywords_shadow_bindings() {
    let mut interpreter = Interpreter::new();
    // a defined binding for a keyword name never shows through
    run_ok("(define true 1)", &mut interpreter);
    check("true", DataKind::Boolean(true), &mut interpreter);
    check("nil", DataKind::Nil, &mut interpreter);
}

#[test]
fn improper_argument_list_is_rejected() {
    let mut interpreter = Interpreter::new();
    let e = run("(+ 1 . 2)", &mut interpreter).unwrap_err();
    assert!(matches!(e.value, InterpreterErrorKind::InvalidArguments));
}

#[test]
fn closure_self_evaluates() {
    let mut interpreter = Interpreter::new();
    run_ok("(define id (lambda (x) x))", &mut interpreter);
    // applying the identity closure to a closure hands it back
    let d = run_ok("(id id)", &mut interpreter);
    assert!(matches!(d.value, DataKind::_Fn(_, _)));
}
