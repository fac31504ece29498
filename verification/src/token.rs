//! Tokens produced by the lexer: integer literals, bare symbols, and the
//! fixed alphabet of single-character operators and delimiters.
use vstd::prelude::*;
use crate::{Annot, Loc};

verus! {

#[derive(Debug, Clone, PartialEq, Eq, Hash)]
pub enum TokenKind {
    Number(u32),
    Symbol(String),
    Plus,
    Minus,
    Asterisk,
    Slash,
    Less,
    Equal,
    Greater,
    And,
    Or,
    Not,
    Xor,
    Percent,
    Quote,
    Dot,
    LParen,
    RParen,
}

/// A span-free view of a token, for contracts: the symbol text is a
/// character sequence, everything else is as in `TokenKind`.
pub enum TokV {
    Number(u32),
    Symbol(Seq<char>),
    Plus,
    Minus,
    Asterisk,
    Slash,
    Less,
    Equal,
    Greater,
    And,
    Or,
    Not,
    Xor,
    Percent,
    Quote,
    Dot,
    LParen,
    RParen,
}

impl View for TokenKind {
    type V = TokV;

    open spec fn view(&self) -> TokV {
        match self {
            TokenKind::Number(n) => TokV::Number(*n),
            TokenKind::Symbol(s) => TokV::Symbol(s@),
            TokenKind::Plus => TokV::Plus,
            TokenKind::Minus => TokV::Minus,
            TokenKind::Asterisk => TokV::Asterisk,
            TokenKind::Slash => TokV::Slash,
            TokenKind::Less => TokV::Less,
            TokenKind::Equal => TokV::Equal,
            TokenKind::Greater => TokV::Greater,
            TokenKind::And => TokV::And,
            TokenKind::Or => TokV::Or,
            TokenKind::Not => TokV::Not,
            TokenKind::Xor => TokV::Xor,
            TokenKind::Percent => TokV::Percent,
            TokenKind::Quote => TokV::Quote,
            TokenKind::Dot => TokV::Dot,
            TokenKind::LParen => TokV::LParen,
            TokenKind::RParen => TokV::RParen,
        }
    }
}

pub type Token = Annot<TokenKind>;

impl View for Token {
    type V = TokV;

    open spec fn view(&self) -> TokV {
        self.value@
    }
}

impl Token {
    pub fn number(n: u32, loc: Loc) -> (r: Self)
        ensures
            r@ == TokV::Number(n),
            r.loc == loc,
    {
        Self::new(TokenKind::Number(n), loc)
    }

    pub fn symbol(s: String, loc: Loc) -> (r: Self)
        ensures
            r@ == TokV::Symbol(s@),
            r.loc == loc,
    {
        Self::new(TokenKind::Symbol(s), loc)
    }

    pub fn plus(loc: Loc) -> (r: Self)
        ensures
            r@ == TokV::Plus,
            r.loc == loc,
    {
        Self::new(TokenKind::Plus, loc)
    }

    pub fn minus(loc: Loc) -> (r: Self)
        ensures
            r@ == TokV::Minus,
            r.loc == loc,
    {
        Self::new(TokenKind::Minus, loc)
    }

    pub fn asterisk(loc: Loc) -> (r: Self)
        ensures
            r@ == TokV::Asterisk,
            r.loc == loc,
    {
        Self::new(TokenKind::Asterisk, loc)
    }

    pub fn slash(loc: Loc) -> (r: Self)
        ensures
            r@ == TokV::Slash,
            r.loc == loc,
    {
        Self::new(TokenKind::Slash, loc)
    }

    pub fn less(loc: Loc) -> (r: Self)
        ensures
            r@ == TokV::Less,
            r.loc == loc,
    {
        Self::new(TokenKind::Less, loc)
    }

    pub fn equal(loc: Loc) -> (r: Self)
        ensures
            r@ == TokV::Equal,
            r.loc == loc,
    {
        Self::new(TokenKind::Equal, loc)
    }

    pub fn greater(loc: Loc) -> (r: Self)
        ensures
            r@ == TokV::Greater,
            r.loc == loc,
    {
        Self::new(TokenKind::Greater, loc)
    }

    pub fn and(loc: Loc) -> (r: Self)
        ensures
            r@ == TokV::And,
            r.loc == loc,
    {
        Self::new(TokenKind::And, loc)
    }

    pub fn or(loc: Loc) -> (r: Self)
        ensures
            r@ == TokV::Or,
            r.loc == loc,
    {
        Self::new(TokenKind::Or, loc)
    }

    pub fn not(loc: Loc) -> (r: Self)
        ensures
            r@ == TokV::Not,
            r.loc == loc,
    {
        Self::new(TokenKind::Not, loc)
    }

    pub fn xor(loc: Loc) -> (r: Self)
        ensures
            r@ == TokV::Xor,
            r.loc == loc,
    {
        Self::new(TokenKind::Xor, loc)
    }

    pub fn percent(loc: Loc) -> (r: Self)
        ensures
            r@ == TokV::Percent,
            r.loc == loc,
    {
        Self::new(TokenKind::Percent, loc)
    }

    pub fn quote(loc: Loc) -> (r: Self)
        ensures
            r@ == TokV::Quote,
            r.loc == loc,
    {
        Self::new(TokenKind::Quote, loc)
    }

    pub fn dot(loc: Loc) -> (r: Self)
        ensures
            r@ == TokV::Dot,
            r.loc == loc,
    {
        Self::new(TokenKind::Dot, loc)
    }

    pub fn lparen(loc: Loc) -> (r: Self)
        ensures
            r@ == TokV::LParen,
            r.loc == loc,
    {
        Self::new(TokenKind::LParen, loc)
    }

    pub fn rparen(loc: Loc) -> (r: Self)
        ensures
            r@ == TokV::RParen,
            r.loc == loc,
    {
        Self::new(TokenKind::RParen, loc)
    }
}

} // verus!
