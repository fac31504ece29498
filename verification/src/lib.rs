//! A verified tree-walking evaluator for a minimal S-expression language:
//! numbers, booleans, symbols, nil, cons pairs, quoting, conditionals,
//! lexically nested scopes, and a fixed set of primitive operators.
//!
//! Pipeline: source text -> `lexer::lex` -> tokens -> `parser::parse` ->
//! surface tree -> `Interpreter::ast2data` -> value -> `Interpreter::eval`.
//! The evaluator's behaviour is pinned down by the mathematical semantics in
//! `semantics`, and `laws` proves the language's structural properties from it.
use vstd::prelude::*;

pub mod token;
pub mod lexer;
pub mod ast;
pub mod parser;
pub mod data;
pub mod symbols;
pub mod semantics;
pub mod interpreter;
pub mod error;
pub mod laws;

verus! {

/// A half-open source span `(start, end)`, in character positions.
/// Spans are diagnostic metadata only: they never influence evaluation,
/// and the views that the contracts speak of erase them.
#[derive(Debug, Clone, Copy, PartialEq, Eq, Hash, Structural)]
pub struct Loc(pub usize, pub usize);

impl Loc {
    /// The smallest span covering both `self` and `other`.
    pub fn merge(&self, other: &Loc) -> (r: Loc)
        ensures
            r.0 == if self.0 <= other.0 { self.0 } else { other.0 },
            r.1 == if self.1 >= other.1 { self.1 } else { other.1 },
    {
        let lo = if self.0 <= other.0 { self.0 } else { other.0 };
        let hi = if self.1 >= other.1 { self.1 } else { other.1 };
        Loc(lo, hi)
    }
}

/// A value of type `T` annotated with the source span it came from.
#[derive(Debug, Clone, PartialEq, Eq, Hash)]
pub struct Annot<T> {
    pub value: T,
    pub loc: Loc,
}

impl<T> Annot<T> {
    pub fn new(value: T, loc: Loc) -> (r: Self)
        ensures
            r.value == value,
            r.loc == loc,
    {
        Self { value, loc }
    }
}

} // verus!
