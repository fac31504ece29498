use rlisp::ast::Ast;
use rlisp::data::{Data, DataKind};
use rlisp::error::read_source;
use rlisp::interpreter::Interpreter;

fn parse_line(line: &str) -> Ast {
    read_source(line).unwrap()
}

fn interpret(line: &str, interpreter: &mut Interpreter) -> Data {
    let ast = parse_line(line);
    println!("{:?}", ast);
    let result = interpreter.eval(&Interpreter::ast2data(&ast)).unwrap();
    println!("{:?}", result);
    result
}

fn _interpret(line: &str, normal: DataKind, interpreter: &mut Interpreter) {
    let result = interpret(line, interpreter);
    assert!(result.assert_eq(&normal));
}

#[should_panic]
#[test]
fn empty() {
    let mut interpreter = Interpreter::new();
    interpret("", &mut interpreter);
}

#[test]
fn atom() {
    let mut interpreter = Interpreter::new();
    _interpret("1", DataKind::Number(1), &mut interpreter);
    _interpret("true", DataKind::Boolean(true), &mut interpreter);
    _interpret("'a", DataKind::Symbol(String::from("a")), &mut interpreter);
    _interpret("'&", DataKind::Symbol(String::from("and")), &mut interpreter);
    _interpret("(atom 1)", DataKind::Boolean(true), &mut interpreter);
    _interpret("(atom true)", DataKind::Boolean(true), &mut interpreter);
    _interpret("(atom 'a)", DataKind::Boolean(true), &mut interpreter);
    _interpret("(atom '&)", DataKind::Boolean(true), &mut interpreter);
}

#[test]
fn quote() {
    let mut interpreter = Interpreter::new();
    _interpret("'1", DataKind::Number(1), &mut interpreter);
    _interpret("'true", DataKind::Symbol(String::from("true")), &mut interpreter);
}

#[test]
fn pair() {
    let mut interpreter = Interpreter::new();
    interpret("'(1 . 2)", &mut interpreter);
    interpret("'(true . false)", &mut interpreter);
    interpret("'(a . b)", &mut interpreter);
    interpret("'(& . |)", &mut interpreter);
    _interpret("(car '(1 . 2))", DataKind::Number(1), &mut interpreter);
    _interpret(
        "(car '(true . false))",
        DataKind::Symbol(String::from("true")),
        &mut interpreter,
    );
    _interpret("(car '(a . b))", DataKind::Symbol(String::from("a")), &mut interpreter);
    _interpret("(car '(& . |))", DataKind::Symbol(String::from("and")), &mut interpreter);
    _interpret("(cdr '(1 . 2))", DataKind::Number(2), &mut interpreter);
    _interpret(
        "(cdr '(true . false))",
        DataKind::Symbol(String::from("false")),
        &mut interpreter,
    );
    _interpret("(cdr '(a . b))", DataKind::Symbol(String::from("b")), &mut interpreter);
    _interpret("(cdr '(& . |))", DataKind::Symbol(String::from("or")), &mut interpreter);
    interpret("(cons 1 2)", &mut interpreter);
    interpret("(cons true false)", &mut interpreter);
    interpret("(cons 'a 'b)", &mut interpreter);
    interpret("(cons '& '|)", &mut interpreter);
}

#[test]
fn list() {
    let mut interpreter = Interpreter::new();
    interpret("'(1 2 3)", &mut interpreter);
    interpret("'(true false)", &mut interpreter);
    interpret("'('a 'b 'c 'd)", &mut interpreter);
    interpret("'('< '= '>)", &mut interpreter);
}

#[test]
fn application() {
    let mut interpreter = Interpreter::new();
    _interpret("(+ 3 2)", DataKind::Number(5), &mut interpreter);
    _interpret("(- 3 2)", DataKind::Number(1), &mut interpreter);
    _interpret("(* 3 2)", DataKind::Number(6), &mut interpreter);
    _interpret("(/ 3 2)", DataKind::Number(1), &mut interpreter);
    _interpret("(% 3 2)", DataKind::Number(1), &mut interpreter);
    _interpret("(< 1 0)", DataKind::Boolean(false), &mut interpreter);
    _interpret("(= 1 0)", DataKind::Boolean(false), &mut interpreter);
    _interpret("(> 1 0)", DataKind::Boolean(true), &mut interpreter);
    _interpret("(& 1 0)", DataKind::Number(0), &mut interpreter);
    _interpret("(| 1 0)", DataKind::Number(1), &mut interpreter);
    _interpret("(! 1)", DataKind::Number(-2), &mut interpreter);
    _interpret("(& true false)", DataKind::Boolean(false), &mut interpreter);
    _interpret("(| true false)", DataKind::Boolean(true), &mut interpreter);
    _interpret("(! false)", DataKind::Boolean(true), &mut interpreter);
    _interpret("(le 3 2)", DataKind::Boolean(false), &mut interpreter);
    _interpret("(ge 3 2)", DataKind::Boolean(true), &mut interpreter);
    _interpret("(ne 3 2)", DataKind::Boolean(true), &mut interpreter);
    _interpret("(shl 3 2)", DataKind::Number(12), &mut interpreter);
    _interpret("(shr 3 2)", DataKind::Number(0), &mut interpreter);
    _interpret("(+ 1 (* 2 3))", DataKind::Number(7), &mut interpreter);
}

#[test]
fn _if() {
    let mut interpreter = Interpreter::new();
    _interpret("(if true 1 2)", DataKind::Number(1), &mut interpreter);
    _interpret("(if true true false)", DataKind::Boolean(true), &mut interpreter);
    _interpret("(if false 'a 'b)", DataKind::Symbol(String::from("b")), &mut interpreter);
    _interpret("(if false '& '|)", DataKind::Symbol(String::from("or")), &mut interpreter);
}

#[test]
fn lambda() {
    let mut interpreter = Interpreter::new();
    interpret("(lambda (a) 1)", &mut interpreter);
    interpret("(lambda (a) true)", &mut interpreter);
    interpret("(lambda (a) a)", &mut interpreter);
    interpret("(lambda (a) &)", &mut interpreter);
}

#[test]
fn define() {
    let mut interpreter = Interpreter::new();
    _interpret("(define p 1)", DataKind::Nil, &mut interpreter);
    _interpret("(define q true)", DataKind::Nil, &mut interpreter);
    _interpret("(define r 'a)", DataKind::Nil, &mut interpreter);
    _interpret("(define s '&)", DataKind::Nil, &mut interpreter);
    _interpret("(define t (lambda (n) n))", DataKind::Nil, &mut interpreter);
    _interpret("p", DataKind::Number(1), &mut interpreter);
    _interpret("q", DataKind::Boolean(true), &mut interpreter);
    _interpret("r", DataKind::Symbol(String::from("a")), &mut interpreter);
    _interpret("s", DataKind::Symbol(String::from("and")), &mut interpreter);
    _interpret("(t 1)", DataKind::Number(1), &mut interpreter);
    _interpret("(t true)", DataKind::Boolean(true), &mut interpreter);
    _interpret("(t 'a)", DataKind::Symbol(String::from("a")), &mut interpreter);
    _interpret("(t '&)", DataKind::Symbol(String::from("and")), &mut interpreter);
}
