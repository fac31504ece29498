//! The front end's combined error: what lexing or parsing of one source
//! line can fail with.
use vstd::prelude::*;
use crate::ast::{Ast, AstV};
use crate::lexer::{lex, lex_spec, LexError, LexErrorKind};
use crate::parser::{parse, parse_spec, ParseError, ParseErrV};

verus! {

#[derive(Debug)]
pub enum Error {
    Lexer(LexError),
    Parser(ParseError),
}

/// A span-free view of a front-end error.
pub enum FrontErrV {
    Lexer(LexErrorKind),
    Parser(ParseErrV),
}

impl View for Error {
    type V = FrontErrV;

    open spec fn view(&self) -> FrontErrV {
        match self {
            Error::Lexer(e) => FrontErrV::Lexer(e.value),
            Error::Parser(e) => FrontErrV::Parser(e@),
        }
    }
}

/// What reading one source line yields: the parse of its token stream,
/// or the lexer's or the parser's error.
pub open spec fn read_spec(s: Seq<char>) -> Result<AstV, FrontErrV> {
    match lex_spec(s, 0) {
        Ok(ts) => match parse_spec(ts) {
            Ok(a) => Ok(a),
            Err(e) => Err(FrontErrV::Parser(e)),
        },
        Err(e) => Err(FrontErrV::Lexer(e)),
    }
}

/// Lex and parse one source line into a surface tree.
pub fn read_source(input: &str) -> (r: Result<Ast, Error>)
    ensures
        match r {
            Ok(a) => read_spec(input@) == Ok::<AstV, FrontErrV>(a@),
            Err(e) => read_spec(input@) == Err::<AstV, FrontErrV>(e@),
        },
{
    match lex(input) {
        Ok(tokens) => match parse(tokens) {
            Ok(ast) => Ok(ast),
            Err(e) => Err(Error::Parser(e)),
        },
        Err(e) => Err(Error::Lexer(e)),
    }
}

} // verus!
