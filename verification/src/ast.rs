//! The surface syntax tree built by the parser: numbers, operator atoms,
//! bare symbols, nil, pairs, and quote forms.
use vstd::prelude::*;
use crate::{Annot, Loc};

verus! {

/// Operator atoms of the surface syntax. The desugarer maps each to the
/// name of the primitive it stands for.
#[derive(Debug, Clone, Copy, PartialEq, Eq, Hash, Structural)]
pub enum OpKind {
    Add,
    Sub,
    Mul,
    Div,
    Rem,
    Lt,
    Equal,
    Gt,
    And,
    Or,
    Not,
    Xor,
}

pub type Op = Annot<OpKind>;

impl Op {
    pub fn add(loc: Loc) -> (r: Self)
        ensures
            r.value == OpKind::Add,
            r.loc == loc,
    {
        Self::new(OpKind::Add, loc)
    }

    pub fn sub(loc: Loc) -> (r: Self)
        ensures
            r.value == OpKind::Sub,
            r.loc == loc,
    {
        Self::new(OpKind::Sub, loc)
    }

    pub fn mul(loc: Loc) -> (r: Self)
        ensures
            r.value == OpKind::Mul,
            r.loc == loc,
    {
        Self::new(OpKind::Mul, loc)
    }

    pub fn div(loc: Loc) -> (r: Self)
        ensures
            r.value == OpKind::Div,
            r.loc == loc,
    {
        Self::new(OpKind::Div, loc)
    }

    pub fn rem(loc: Loc) -> (r: Self)
        ensures
            r.value == OpKind::Rem,
            r.loc == loc,
    {
        Self::new(OpKind::Rem, loc)
    }

    pub fn lt(loc: Loc) -> (r: Self)
        ensures
            r.value == OpKind::Lt,
            r.loc == loc,
    {
        Self::new(OpKind::Lt, loc)
    }

    pub fn equal(loc: Loc) -> (r: Self)
        ensures
            r.value == OpKind::Equal,
            r.loc == loc,
    {
        Self::new(OpKind::Equal, loc)
    }

    pub fn gt(loc: Loc) -> (r: Self)
        ensures
            r.value == OpKind::Gt,
            r.loc == loc,
    {
        Self::new(OpKind::Gt, loc)
    }

    pub fn and(loc: Loc) -> (r: Self)
        ensures
            r.value == OpKind::And,
            r.loc == loc,
    {
        Self::new(OpKind::And, loc)
    }

    pub fn or(loc: Loc) -> (r: Self)
        ensures
            r.value == OpKind::Or,
            r.loc == loc,
    {
        Self::new(OpKind::Or, loc)
    }

    pub fn not(loc: Loc) -> (r: Self)
        ensures
            r.value == OpKind::Not,
            r.loc == loc,
    {
        Self::new(OpKind::Not, loc)
    }

    pub fn xor(loc: Loc) -> (r: Self)
        ensures
            r.value == OpKind::Xor,
            r.loc == loc,
    {
        Self::new(OpKind::Xor, loc)
    }
}

#[derive(Debug)]
pub enum AstKind {
    Num(u32),
    Sym(String),
    Op { op: Op },
    Nil,
    Pair { l: Box<Ast>, r: Box<Ast> },
    Quote { q: Box<Ast> },
}

pub type Ast = Annot<AstKind>;

/// A span-free view of a surface tree.
pub enum AstV {
    Num(u32),
    Sym(Seq<char>),
    Op(OpKind),
    Nil,
    Pair(Box<AstV>, Box<AstV>),
    Quote(Box<AstV>),
}

impl View for Ast {
    type V = AstV;

    open spec fn view(&self) -> AstV
        decreases self,
    {
        match &self.value {
            AstKind::Num(n) => AstV::Num(*n),
            AstKind::Sym(s) => AstV::Sym(s@),
            AstKind::Op { op } => AstV::Op(op.value),
            AstKind::Nil => AstV::Nil,
            AstKind::Pair { l, r } => AstV::Pair(Box::new((**l)@), Box::new((**r)@)),
            AstKind::Quote { q } => AstV::Quote(Box::new((**q)@)),
        }
    }
}

impl Ast {
    pub fn num(n: u32, loc: Loc) -> (r: Self)
        ensures
            r@ == AstV::Num(n),
            r.loc == loc,
    {
        Self::new(AstKind::Num(n), loc)
    }

    pub fn sym(s: String, loc: Loc) -> (r: Self)
        ensures
            r@ == AstV::Sym(s@),
            r.loc == loc,
    {
        Self::new(AstKind::Sym(s), loc)
    }

    pub fn op(op: Op, loc: Loc) -> (r: Self)
        ensures
            r@ == AstV::Op(op.value),
            r.loc == loc,
    {
        Self::new(AstKind::Op { op }, loc)
    }

    pub fn nil(loc: Loc) -> (r: Self)
        ensures
            r@ == AstV::Nil,
            r.loc == loc,
    {
        Self::new(AstKind::Nil, loc)
    }

    pub fn pair(l: Ast, r: Ast, loc: Loc) -> (t: Self)
        ensures
            t@ == AstV::Pair(Box::new(l@), Box::new(r@)),
            t.loc == loc,
    {
        Self::new(
            AstKind::Pair { l: Box::new(l), r: Box::new(r) },
            loc,
        )
    }

    pub fn quote(q: Ast, loc: Loc) -> (r: Self)
        ensures
            r@ == AstV::Quote(Box::new(q@)),
            r.loc == loc,
    {
        Self::new(
            AstKind::Quote { q: Box::new(q) },
            loc,
        )
    }
}

} // verus!
