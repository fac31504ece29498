//! The parser: recursive descent from tokens to a surface tree.
//!
//! Grammar:
//! ```text
//! list : "(" pair | "'" list | ATOM ;
//! pair : ")" | list cdr ;
//! cdr  : ")" | "." list ")" | list cdr ;
//! ```
//! The `*_spec` functions define the grammar mathematically over token
//! views; each executable function is proved to return exactly what its
//! spec twin prescribes, together with the position just past what it
//! consumed.
use vstd::prelude::*;
use crate::Loc;
use crate::token::{Token, TokenKind, TokV};
use crate::ast::{Ast, AstV, Op, OpKind};
use crate::lexer::token_views;

verus! {

#[derive(Debug)]
pub enum ParseError {
    UnexpectedToken(Token),
    NotExpression(Token),
    NotOperator(Token),
    UnclosedOpenParen(Token),
    RedundantExpression(Token),
    Eof,
}

/// A span-free view of a parse error.
pub enum ParseErrV {
    UnexpectedToken(TokV),
    NotExpression(TokV),
    NotOperator(TokV),
    UnclosedOpenParen(TokV),
    RedundantExpression(TokV),
    Eof,
}

impl View for ParseError {
    type V = ParseErrV;

    open spec fn view(&self) -> ParseErrV {
        match self {
            ParseError::UnexpectedToken(t) => ParseErrV::UnexpectedToken(t@),
            ParseError::NotExpression(t) => ParseErrV::NotExpression(t@),
            ParseError::NotOperator(t) => ParseErrV::NotOperator(t@),
            ParseError::UnclosedOpenParen(t) => ParseErrV::UnclosedOpenParen(t@),
            ParseError::RedundantExpression(t) => ParseErrV::RedundantExpression(t@),
            ParseError::Eof => ParseErrV::Eof,
        }
    }
}

/// An atom: a number, a bare symbol, or an operator token.
pub open spec fn parse_atom_spec(ts: Seq<TokV>, pos: int) -> Result<(AstV, int), ParseErrV> {
    if !(0 <= pos < ts.len()) {
        Err(ParseErrV::Eof)
    } else {
        match ts[pos] {
            TokV::Number(n) => Ok((AstV::Num(n), pos + 1)),
            TokV::Symbol(s) => Ok((AstV::Sym(s), pos + 1)),
            TokV::Plus => Ok((AstV::Op(OpKind::Add), pos + 1)),
            TokV::Minus => Ok((AstV::Op(OpKind::Sub), pos + 1)),
            TokV::Asterisk => Ok((AstV::Op(OpKind::Mul), pos + 1)),
            TokV::Slash => Ok((AstV::Op(OpKind::Div), pos + 1)),
            TokV::Less => Ok((AstV::Op(OpKind::Lt), pos + 1)),
            TokV::Equal => Ok((AstV::Op(OpKind::Equal), pos + 1)),
            TokV::Greater => Ok((AstV::Op(OpKind::Gt), pos + 1)),
            TokV::And => Ok((AstV::Op(OpKind::And), pos + 1)),
            TokV::Or => Ok((AstV::Op(OpKind::Or), pos + 1)),
            TokV::Not => Ok((AstV::Op(OpKind::Not), pos + 1)),
            TokV::Xor => Ok((AstV::Op(OpKind::Xor), pos + 1)),
            TokV::Percent => Ok((AstV::Op(OpKind::Rem), pos + 1)),
            _ => Err(ParseErrV::NotExpression(ts[pos])),
        }
    }
}

/// A recursive call's next position. Real sub-parses always return a
/// position strictly past `pos` and at most `len`; out of caution the
/// definition clamps anything else so that termination is evident.
pub open spec fn step_pos(pos: int, p: int, len: int) -> int {
    if pos < p <= len {
        p
    } else {
        pos + 1
    }
}

/// `list : "(" pair | "'" list | ATOM ;`
pub open spec fn parse_list_spec(ts: Seq<TokV>, pos: int) -> Result<(AstV, int), ParseErrV>
    decreases ts.len() - pos, 0int,
{
    if !(0 <= pos < ts.len()) {
        Err(ParseErrV::Eof)
    } else {
        match ts[pos] {
            TokV::LParen => parse_pair_spec(ts, pos + 1),
            TokV::Quote => match parse_list_spec(ts, pos + 1) {
                Ok((q, p)) => Ok((AstV::Quote(Box::new(q)), p)),
                Err(e) => Err(e),
            },
            _ => parse_atom_spec(ts, pos),
        }
    }
}

/// `pair : ")" | list cdr ;`
pub open spec fn parse_pair_spec(ts: Seq<TokV>, pos: int) -> Result<(AstV, int), ParseErrV>
    decreases ts.len() - pos, 1int,
{
    if !(0 <= pos < ts.len()) {
        Err(ParseErrV::Eof)
    } else if ts[pos] is RParen {
        Ok((AstV::Nil, pos + 1))
    } else {
        match parse_list_spec(ts, pos) {
            Ok((l, p1)) => match parse_cdr_spec(ts, step_pos(pos, p1, ts.len() as int)) {
                Ok((r, p2)) => Ok((AstV::Pair(Box::new(l), Box::new(r)), p2)),
                Err(e) => Err(e),
            },
            Err(e) => Err(e),
        }
    }
}

/// `cdr : ")" | "." list ")" | list cdr ;`
pub open spec fn parse_cdr_spec(ts: Seq<TokV>, pos: int) -> Result<(AstV, int), ParseErrV>
    decreases ts.len() - pos, 1int,
{
    if !(0 <= pos < ts.len()) {
        Err(ParseErrV::Eof)
    } else if ts[pos] is RParen {
        Ok((AstV::Nil, pos + 1))
    } else if ts[pos] is Dot {
        match parse_list_spec(ts, step_pos(pos, pos + 1, ts.len() as int)) {
            Ok((t, p1)) => if 0 <= p1 < ts.len() {
                if ts[p1] is RParen {
                    Ok((t, p1 + 1))
                } else {
                    Err(ParseErrV::UnclosedOpenParen(ts[p1]))
                }
            } else {
                Err(ParseErrV::Eof)
            },
            Err(e) => Err(e),
        }
    } else {
        match parse_list_spec(ts, pos) {
            Ok((l, p1)) => match parse_cdr_spec(ts, step_pos(pos, p1, ts.len() as int)) {
                Ok((r, p2)) => Ok((AstV::Pair(Box::new(l), Box::new(r)), p2)),
                Err(e) => Err(e),
            },
            Err(e) => Err(e),
        }
    }
}

/// A whole expression: one `list` form covering every token.
pub open spec fn parse_spec(ts: Seq<TokV>) -> Result<AstV, ParseErrV> {
    match parse_list_spec(ts, 0) {
        Ok((a, p)) => if p < ts.len() {
            Err(ParseErrV::RedundantExpression(ts[p]))
        } else {
            Ok(a)
        },
        Err(e) => Err(e),
    }
}

impl Token {
    /// A structural copy of the token, spans included.
    pub fn dup(&self) -> (r: Token)
        ensures
            r@ == self@,
            r.loc == self.loc,
    {
        match &self.value {
            TokenKind::Number(n) => Token::number(*n, self.loc),
            TokenKind::Symbol(s) => Token::symbol(s.clone(), self.loc),
            TokenKind::Plus => Token::plus(self.loc),
            TokenKind::Minus => Token::minus(self.loc),
            TokenKind::Asterisk => Token::asterisk(self.loc),
            TokenKind::Slash => Token::slash(self.loc),
            TokenKind::Less => Token::less(self.loc),
            TokenKind::Equal => Token::equal(self.loc),
            TokenKind::Greater => Token::greater(self.loc),
            TokenKind::And => Token::and(self.loc),
            TokenKind::Or => Token::or(self.loc),
            TokenKind::Not => Token::not(self.loc),
            TokenKind::Xor => Token::xor(self.loc),
            TokenKind::Percent => Token::percent(self.loc),
            TokenKind::Quote => Token::quote(self.loc),
            TokenKind::Dot => Token::dot(self.loc),
            TokenKind::LParen => Token::lparen(self.loc),
            TokenKind::RParen => Token::rparen(self.loc),
        }
    }
}

fn parse_atom(tokens: &Vec<Token>, pos: usize) -> (r: Result<(Ast, usize), ParseError>)
    ensures
        match r {
            Ok((a, p)) => {
                &&& parse_atom_spec(token_views(tokens@), pos as int) == Ok::<(AstV, int), ParseErrV>((a@, p as int))
                &&& pos < p <= tokens@.len()
            },
            Err(e) => parse_atom_spec(token_views(tokens@), pos as int) == Err::<(AstV, int), ParseErrV>(e@),
        },
{
    if pos >= tokens.len() {
        return Err(ParseError::Eof);
    }
    let tok = &tokens[pos];
    match &tok.value {
        TokenKind::Number(n) => Ok((Ast::num(*n, tok.loc), pos + 1)),
        TokenKind::Symbol(s) => Ok((Ast::sym(s.clone(), tok.loc), pos + 1)),
        TokenKind::Plus => Ok((Ast::op(Op::add(tok.loc), tok.loc), pos + 1)),
        TokenKind::Minus => Ok((Ast::op(Op::sub(tok.loc), tok.loc), pos + 1)),
        TokenKind::Asterisk => Ok((Ast::op(Op::mul(tok.loc), tok.loc), pos + 1)),
        TokenKind::Slash => Ok((Ast::op(Op::div(tok.loc), tok.loc), pos + 1)),
        TokenKind::Less => Ok((Ast::op(Op::lt(tok.loc), tok.loc), pos + 1)),
        TokenKind::Equal => Ok((Ast::op(Op::equal(tok.loc), tok.loc), pos + 1)),
        TokenKind::Greater => Ok((Ast::op(Op::gt(tok.loc), tok.loc), pos + 1)),
        TokenKind::And => Ok((Ast::op(Op::and(tok.loc), tok.loc), pos + 1)),
        TokenKind::Or => Ok((Ast::op(Op::or(tok.loc), tok.loc), pos + 1)),
        TokenKind::Not => Ok((Ast::op(Op::not(tok.loc), tok.loc), pos + 1)),
        TokenKind::Xor => Ok((Ast::op(Op::xor(tok.loc), tok.loc), pos + 1)),
        TokenKind::Percent => Ok((Ast::op(Op::rem(tok.loc), tok.loc), pos + 1)),
        _ => Err(ParseError::NotExpression(tok.dup())),
    }
}

fn parse_list(tokens: &Vec<Token>, pos: usize) -> (r: Result<(Ast, usize), ParseError>)
    ensures
        match r {
            Ok((a, p)) => {
                &&& parse_list_spec(token_views(tokens@), pos as int) == Ok::<(AstV, int), ParseErrV>((a@, p as int))
                &&& pos < p <= tokens@.len()
            },
            Err(e) => parse_list_spec(token_views(tokens@), pos as int) == Err::<(AstV, int), ParseErrV>(e@),
        },
    decreases tokens@.len() - pos, 0int,
{
    if pos >= tokens.len() {
        return Err(ParseError::Eof);
    }
    let tok = &tokens[pos];
    match &tok.value {
        TokenKind::LParen => parse_pair(tokens, pos + 1, tok.loc),
        TokenKind::Quote => match parse_list(tokens, pos + 1) {
            Ok((q, p)) => Ok((Ast::quote(q, tok.loc), p)),
            Err(e) => Err(e),
        },
        _ => parse_atom(tokens, pos),
    }
}

fn parse_pair(tokens: &Vec<Token>, pos: usize, loc: Loc) -> (r: Result<(Ast, usize), ParseError>)
    ensures
        match r {
            Ok((a, p)) => {
                &&& parse_pair_spec(token_views(tokens@), pos as int) == Ok::<(AstV, int), ParseErrV>((a@, p as int))
                &&& pos < p <= tokens@.len()
            },
            Err(e) => parse_pair_spec(token_views(tokens@), pos as int) == Err::<(AstV, int), ParseErrV>(e@),
        },
    decreases tokens@.len() - pos, 1int,
{
    if pos >= tokens.len() {
        return Err(ParseError::Eof);
    }
    if let TokenKind::RParen = &tokens[pos].value {
        return Ok((Ast::nil(loc), pos + 1));
    }
    match parse_list(tokens, pos) {
        Ok((l, p1)) => match parse_cdr(tokens, p1) {
            Ok((d, p2)) => Ok((Ast::pair(l, d, loc), p2)),
            Err(e) => Err(e),
        },
        Err(e) => Err(e),
    }
}

fn parse_cdr(tokens: &Vec<Token>, pos: usize) -> (r: Result<(Ast, usize), ParseError>)
    ensures
        match r {
            Ok((a, p)) => {
                &&& parse_cdr_spec(token_views(tokens@), pos as int) == Ok::<(AstV, int), ParseErrV>((a@, p as int))
                &&& pos < p <= tokens@.len()
            },
            Err(e) => parse_cdr_spec(token_views(tokens@), pos as int) == Err::<(AstV, int), ParseErrV>(e@),
        },
    decreases tokens@.len() - pos, 1int,
{
    if pos >= tokens.len() {
        return Err(ParseError::Eof);
    }
    let tok = &tokens[pos];
    match &tok.value {
        TokenKind::RParen => Ok((Ast::nil(tok.loc), pos + 1)),
        TokenKind::Dot => {
            match parse_list(tokens, pos + 1) {
                Ok((t, p1)) => {
                    if p1 >= tokens.len() {
                        return Err(ParseError::Eof);
                    }
                    if let TokenKind::RParen = &tokens[p1].value {
                        Ok((t, p1 + 1))
                    } else {
                        Err(ParseError::UnclosedOpenParen(tokens[p1].dup()))
                    }
                },
                Err(e) => Err(e),
            }
        },
        _ => {
            match parse_list(tokens, pos) {
                Ok((l, p1)) => match parse_cdr(tokens, p1) {
                    Ok((d, p2)) => {
                        let loc = l.loc;
                        Ok((Ast::pair(l, d, loc), p2))
                    },
                    Err(e) => Err(e),
                },
                Err(e) => Err(e),
            }
        },
    }
}

fn parse_expr(tokens: &Vec<Token>, pos: usize) -> (r: Result<(Ast, usize), ParseError>)
    ensures
        match r {
            Ok((a, p)) => {
                &&& parse_list_spec(token_views(tokens@), pos as int) == Ok::<(AstV, int), ParseErrV>((a@, p as int))
                &&& pos < p <= tokens@.len()
            },
            Err(e) => parse_list_spec(token_views(tokens@), pos as int) == Err::<(AstV, int), ParseErrV>(e@),
        },
{
    parse_list(tokens, pos)
}

/// Parse a whole token stream into one expression; trailing tokens after
/// a complete expression are an error.
pub fn parse(tokens: Vec<Token>) -> (r: Result<Ast, ParseError>)
    ensures
        match r {
            Ok(a) => parse_spec(token_views(tokens@)) == Ok::<AstV, ParseErrV>(a@),
            Err(e) => parse_spec(token_views(tokens@)) == Err::<AstV, ParseErrV>(e@),
        },
{
    match parse_expr(&tokens, 0) {
        Ok((ast, p)) => {
            if p < tokens.len() {
                Err(ParseError::RedundantExpression(tokens[p].dup()))
            } else {
                Ok(ast)
            }
        },
        Err(e) => Err(e),
    }
}

} // verus!
