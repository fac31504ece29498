//! The interpreter: a persistent environment and the evaluator.
//!
//! `eval` computes exactly the `eval_spec` semantics at the depth budget
//! `EVAL_BUDGET`. The budget bounds how deeply evaluation may nest; it
//! stands in for the host call stack, and is far beyond any depth a real
//! execution could reach before exhausting that stack. A spent budget is
//! reported as a recursion-limit error rather than an abort.
use vstd::prelude::*;
use crate::{Annot, Loc};
use crate::ast::{Ast, AstKind, OpKind};
use crate::data::{Data, DataKind, data_views, name_views, res_view, clone_names};
use crate::semantics::{
    DataV, ErrV, EnvV, desugar, op_name, flatten_args, eval_spec, eval_args_spec, apply_spec,
    bind_frame, lemma_eval_frames,
};
use crate::symbols::Symbols;

verus! {

/// The evaluator's depth budget: the greatest nesting depth `eval` will
/// follow before reporting a recursion-limit error. No real execution can
/// make this many nested calls.
pub const EVAL_BUDGET: u64 = u64::MAX;

pub struct Interpreter {
    pub symbols: Symbols,
}

impl View for Interpreter {
    type V = EnvV;

    open spec fn view(&self) -> EnvV {
        self.symbols@
    }
}

#[derive(Debug)]
pub enum InterpreterErrorKind {
    InvalidArguments,
    DivisionByZero,
    CarNotApplicable,
    SymbolNotFound(String),
    RecursionLimit,
}

pub type InterpreterError = Annot<InterpreterErrorKind>;

impl View for InterpreterErrorKind {
    type V = ErrV;

    open spec fn view(&self) -> ErrV {
        match self {
            InterpreterErrorKind::InvalidArguments => ErrV::InvalidArguments,
            InterpreterErrorKind::DivisionByZero => ErrV::DivisionByZero,
            InterpreterErrorKind::CarNotApplicable => ErrV::CarNotApplicable,
            InterpreterErrorKind::SymbolNotFound(s) => ErrV::SymbolNotFound(s@),
            InterpreterErrorKind::RecursionLimit => ErrV::RecursionLimit,
        }
    }
}

impl View for InterpreterError {
    type V = ErrV;

    open spec fn view(&self) -> ErrV {
        self.value@
    }
}

impl InterpreterError {
    pub fn invalid_arguments(loc: Loc) -> (r: Self)
        ensures
            r@ == ErrV::InvalidArguments,
            r.loc == loc,
    {
        Self::new(InterpreterErrorKind::InvalidArguments, loc)
    }

    pub fn division_by_zero(loc: Loc) -> (r: Self)
        ensures
            r@ == ErrV::DivisionByZero,
            r.loc == loc,
    {
        Self::new(InterpreterErrorKind::DivisionByZero, loc)
    }

    pub fn car_not_applicable(loc: Loc) -> (r: Self)
        ensures
            r@ == ErrV::CarNotApplicable,
            r.loc == loc,
    {
        Self::new(InterpreterErrorKind::CarNotApplicable, loc)
    }

    pub fn symbol_not_found(s: String, loc: Loc) -> (r: Self)
        ensures
            r@ == ErrV::SymbolNotFound(s@),
            r.loc == loc,
    {
        Self::new(InterpreterErrorKind::SymbolNotFound(s), loc)
    }

    pub fn recursion_limit(loc: Loc) -> (r: Self)
        ensures
            r@ == ErrV::RecursionLimit,
            r.loc == loc,
    {
        Self::new(InterpreterErrorKind::RecursionLimit, loc)
    }
}

/// Whether `s` reads as the given literal.
fn str_is(s: &String, lit: &str) -> (r: bool)
    ensures
        r == (s@ == lit@),
{
    let k: String = lit.to_owned();
    *s == k
}

/// Flatten the cons chain of argument expressions onto `out`.
fn flatten_into(args: &Data, out: &mut Vec<Data>) -> (ok: bool)
    ensures
        match flatten_args(args@) {
            Some(vs) => ok && data_views(final(out)@) == data_views(old(out)@) + vs,
            None => !ok,
        },
    decreases args,
{
    match &args.value {
        DataKind::Nil => {
            proof {
                assert(data_views(out@) =~= data_views(out@) + Seq::<DataV>::empty());
            }
            true
        },
        DataKind::Pair(l, t) => {
            out.push((**l).duplicate());
            let ghost mid = out@;
            let ok = flatten_into(&**t, out);
            proof {
                if ok {
                    assert(data_views(mid) =~= data_views(old(out)@) + seq![(**l)@]);
                    match flatten_args((**t)@) {
                        Some(rest) => {
                            assert(data_views(out@) =~= data_views(old(out)@) + (seq![(**l)@]
                                + rest));
                        },
                        None => {},
                    }
                }
            }
            ok
        },
        _ => false,
    }
}

/// The argument expressions of an application form: the cons chain
/// flattened into a vector, or an invalid-arguments error when the chain
/// does not end in nil.
pub fn vec_args(args: &Data) -> (r: Result<Vec<Data>, InterpreterError>)
    ensures
        match r {
            Ok(v) => flatten_args(args@) == Some(data_views(v@)),
            Err(e) => flatten_args(args@) is None && e@ == ErrV::InvalidArguments,
        },
{
    let mut out: Vec<Data> = Vec::new();
    proof {
        assert(data_views(out@) =~= Seq::<DataV>::empty());
    }
    if flatten_into(args, &mut out) {
        Ok(out)
    } else {
        Err(InterpreterError::invalid_arguments(args.loc))
    }
}

/// The symbol value an operator atom desugars to.
pub fn symbolize(kind: &OpKind, loc: Loc) -> (r: Data)
    ensures
        r@ == DataV::Symbol(op_name(*kind)),
{
    match kind {
        OpKind::Add => Data::symbol("add".to_owned(), loc),
        OpKind::Sub => Data::symbol("sub".to_owned(), loc),
        OpKind::Mul => Data::symbol("mul".to_owned(), loc),
        OpKind::Div => Data::symbol("div".to_owned(), loc),
        OpKind::Rem => Data::symbol("rem".to_owned(), loc),
        OpKind::Gt => Data::symbol("gt".to_owned(), loc),
        OpKind::Equal => Data::symbol("eq".to_owned(), loc),
        OpKind::Lt => Data::symbol("lt".to_owned(), loc),
        OpKind::And => Data::symbol("and".to_owned(), loc),
        OpKind::Or => Data::symbol("or".to_owned(), loc),
        OpKind::Not => Data::symbol("not".to_owned(), loc),
        OpKind::Xor => Data::symbol("xor".to_owned(), loc),
    }
}

impl Interpreter {
    /// The environment always holds at least the global frame.
    pub open spec fn wf(&self) -> bool {
        self.symbols.wf()
    }

    /// A fresh session: one empty global frame.
    pub fn new() -> (r: Self)
        ensures
            r.wf(),
            r@ =~= seq![Map::<Seq<char>, DataV>::empty()],
    {
        Interpreter { symbols: Symbols::new() }
    }

    /// Push a fresh innermost scope.
    pub fn enclose(&mut self)
        requires
            old(self).wf(),
        ensures
            final(self).wf(),
            final(self)@ =~= old(self)@.push(Map::empty()),
    {
        self.symbols.enclose();
    }

    /// Pop the innermost scope; `None` when only the global frame is left.
    pub fn disclose(&mut self) -> (r: Option<()>)
        requires
            old(self).wf(),
        ensures
            final(self).wf(),
            if old(self)@.len() > 1 {
                r is Some && final(self)@ =~= old(self)@.drop_last()
            } else {
                r is None && final(self)@ == old(self)@
            },
    {
        self.symbols.disclose()
    }

    /// Desugar a surface tree into a runtime value.
    pub fn ast2data(expr: &Ast) -> (r: Data)
        ensures
            r@ == desugar(expr@),
        decreases expr,
    {
        match &expr.value {
            AstKind::Num(n) => Data::number(*n as i32, expr.loc),
            AstKind::Sym(s) => Data::symbol(s.clone(), expr.loc),
            AstKind::Nil => Data::nil(expr.loc),
            AstKind::Op { op } => symbolize(&op.value, expr.loc),
            AstKind::Pair { l, r } => Data::pair(
                Self::ast2data(&**l),
                Self::ast2data(&**r),
                expr.loc,
            ),
            AstKind::Quote { q } => Data::pair(
                Data::symbol("quote".to_owned(), expr.loc),
                Self::ast2data(&**q),
                expr.loc,
            ),
        }
    }

    /// Evaluate an expression against this session's environment: the
    /// result and the new environment are exactly those of `eval_spec`
    /// at the depth budget.
    pub fn eval(&mut self, expr: &Data) -> (r: Result<Data, InterpreterError>)
        requires
            old(self).wf(),
        ensures
            final(self).wf(),
            (res_view(r), final(self)@) == eval_spec(old(self)@, expr@, EVAL_BUDGET as nat),
    {
        self.eval_rec(expr, EVAL_BUDGET)
    }

    fn eval_rec(&mut self, expr: &Data, fuel: u64) -> (r: Result<Data, InterpreterError>)
        requires
            old(self).wf(),
        ensures
            final(self).wf(),
            (res_view(r), final(self)@) == eval_spec(old(self)@, expr@, fuel as nat),
        decreases fuel, 0int, 0int,
    {
        if fuel == 0 {
            return Err(InterpreterError::recursion_limit(expr.loc));
        }
        let f = fuel - 1;
        match &expr.value {
            DataKind::Number(_) => Ok(expr.duplicate()),
            DataKind::Boolean(_) => Ok(expr.duplicate()),
            DataKind::Nil => Ok(expr.duplicate()),
            DataKind::_Fn(_, _) => Ok(expr.duplicate()),
            DataKind::Symbol(s) => {
                if str_is(s, "true") {
                    Ok(Data::boolean(true, expr.loc))
                } else if str_is(s, "false") {
                    Ok(Data::boolean(false, expr.loc))
                } else if str_is(s, "nil") {
                    Ok(Data::nil(expr.loc))
                } else {
                    match self.symbols.get(s) {
                        Some(d) => Ok(d.duplicate()),
                        None => Err(InterpreterError::symbol_not_found(s.clone(), expr.loc)),
                    }
                }
            },
            DataKind::Pair(head, tail) => {
                proof {
                    assert(expr@ == DataV::Pair(Box::new((**head)@), Box::new((**tail)@)));
                }
                match &(**head).value {
                    DataKind::Symbol(s) => {
                        proof {
                            assert((**head)@ == DataV::Symbol(s@));
                        }
                        if str_is(s, "quote") {
                            Ok((**tail).duplicate())
                        } else if str_is(s, "lambda") {
                            match vec_args(&**tail) {
                                Ok(parts) => Data::lambda(parts),
                                Err(e) => Err(e),
                            }
                        } else if str_is(s, "define") {
                            match vec_args(&**tail) {
                                Ok(parts) => {
                                    if parts.len() == 2 {
                                        let name_opt: Option<String> = match &parts[0].value {
                                            DataKind::Symbol(nm) => Some(nm.clone()),
                                            _ => None,
                                        };
                                        match name_opt {
                                            Some(nm) => {
                                                match self.eval_rec(&parts[1], f) {
                                                    Ok(v) => {
                                                        self.symbols.insert(nm, v);
                                                        Ok(Data::nil(expr.loc))
                                                    },
                                                    Err(e) => Err(e),
                                                }
                                            },
                                            None => Err(
                                                InterpreterError::invalid_arguments(expr.loc),
                                            ),
                                        }
                                    } else {
                                        Err(InterpreterError::invalid_arguments(expr.loc))
                                    }
                                },
                                Err(e) => Err(e),
                            }
                        } else if str_is(s, "if") {
                            match vec_args(&**tail) {
                                Ok(parts) => {
                                    if parts.len() == 3 {
                                        match self.eval_rec(&parts[0], f) {
                                            Ok(c) => {
                                                let cond: Option<bool> = match &c.value {
                                                    DataKind::Boolean(b) => Some(*b),
                                                    _ => None,
                                                };
                                                match cond {
                                                    Some(b) => if b {
                                                        self.eval_rec(&parts[1], f)
                                                    } else {
                                                        self.eval_rec(&parts[2], f)
                                                    },
                                                    None => Err(
                                                        InterpreterError::invalid_arguments(
                                                            expr.loc,
                                                        ),
                                                    ),
                                                }
                                            },
                                            Err(e) => Err(e),
                                        }
                                    } else {
                                        Err(InterpreterError::invalid_arguments(expr.loc))
                                    }
                                },
                                Err(e) => Err(e),
                            }
                        } else {
                            match vec_args(&**tail) {
                                Ok(arg_exprs) => {
                                    proof {
                                        assert(data_views(arg_exprs@).skip(0) =~= data_views(
                                            arg_exprs@,
                                        ));
                                    }
                                    match self.eval_args(&arg_exprs, 0, f) {
                                        Ok(vals) => {
                                            if str_is(s, "add") {
                                                Data::add(vals)
                                            } else if str_is(s, "sub") {
                                                Data::sub(vals)
                                            } else if str_is(s, "mul") {
                                                Data::mul(vals)
                                            } else if str_is(s, "div") {
                                                Data::div(vals)
                                            } else if str_is(s, "rem") {
                                                Data::rem(vals)
                                            } else if str_is(s, "gt") {
                                                Data::gt(vals)
                                            } else if str_is(s, "ge") {
                                                Data::ge(vals)
                                            } else if str_is(s, "eq") {
                                                Data::eq(vals)
                                            } else if str_is(s, "ne") {
                                                Data::ne(vals)
                                            } else if str_is(s, "lt") {
                                                Data::lt(vals)
                                            } else if str_is(s, "le") {
                                                Data::le(vals)
                                            } else if str_is(s, "and") {
                                                Data::and(vals)
                                            } else if str_is(s, "or") {
                                                Data::or(vals)
                                            } else if str_is(s, "not") {
                                                Data::not(vals)
                                            } else if str_is(s, "xor") {
                                                Data::xor(vals)
                                            } else if str_is(s, "shl") {
                                                Data::shl(vals)
                                            } else if str_is(s, "shr") {
                                                Data::shr(vals)
                                            } else if str_is(s, "atom") {
                                                Data::atom(vals)
                                            } else if str_is(s, "car") {
                                                Data::car(vals)
                                            } else if str_is(s, "cdr") {
                                                Data::cdr(vals)
                                            } else if str_is(s, "cons") {
                                                Data::cons(vals)
                                            } else {
                                                let found: Option<Data> = match self.symbols.get(
                                                    s,
                                                ) {
                                                    Some(d) => Some(d.duplicate()),
                                                    None => None,
                                                };
                                                match found {
                                                    Some(d) => {
                                                        let is_fn = matches!(
                                                            &d.value,
                                                            DataKind::_Fn(_, _)
                                                        );
                                                        if is_fn {
                                                            self.apply(d, vals, f)
                                                        } else {
                                                            Err(
                                                                InterpreterError::car_not_applicable(
                                                                    expr.loc,
                                                                ),
                                                            )
                                                        }
                                                    },
                                                    None => Err(
                                                        InterpreterError::car_not_applicable(
                                                            expr.loc,
                                                        ),
                                                    ),
                                                }
                                            }
                                        },
                                        Err(e) => Err(e),
                                    }
                                },
                                Err(e) => Err(e),
                            }
                        }
                    },
                    _ => {
                        match self.eval_rec(&**head, f) {
                            Ok(hv) => {
                                let is_fn = matches!(&hv.value, DataKind::_Fn(_, _));
                                if is_fn {
                                    match vec_args(&**tail) {
                                        Ok(arg_exprs) => {
                                            proof {
                                                assert(data_views(arg_exprs@).skip(0)
                                                    =~= data_views(arg_exprs@));
                                            }
                                            match self.eval_args(&arg_exprs, 0, f) {
                                                Ok(vals) => self.apply(hv, vals, f),
                                                Err(e) => Err(e),
                                            }
                                        },
                                        Err(e) => Err(e),
                                    }
                                } else {
                                    Err(InterpreterError::car_not_applicable(hv.loc))
                                }
                            },
                            Err(e) => Err(e),
                        }
                    },
                }
            },
        }
    }

    /// Evaluate the argument expressions from index `i` on, left to right.
    fn eval_args(&mut self, exprs: &Vec<Data>, i: usize, fuel: u64) -> (r: Result<
        Vec<Data>,
        InterpreterError,
    >)
        requires
            old(self).wf(),
            i <= exprs@.len(),
        ensures
            final(self).wf(),
            ({
                let (rs, es) = eval_args_spec(
                    old(self)@,
                    data_views(exprs@).skip(i as int),
                    fuel as nat,
                );
                final(self)@ == es && (match r {
                    Ok(vs) => rs == Ok::<Seq<DataV>, ErrV>(data_views(vs@)),
                    Err(e) => rs == Err::<Seq<DataV>, ErrV>(e@),
                })
            }),
        decreases fuel, 1int, exprs@.len() - i,
    {
        if i >= exprs.len() {
            proof {
                assert(data_views(exprs@).skip(i as int) =~= Seq::<DataV>::empty());
                assert(data_views(Seq::<Data>::empty()) =~= Seq::<DataV>::empty());
            }
            return Ok(Vec::new());
        }
        proof {
            assert(data_views(exprs@).skip(i as int)[0] == exprs@[i as int]@);
            assert(data_views(exprs@).skip(i as int).drop_first() =~= data_views(exprs@).skip(
                i + 1,
            ));
        }
        match self.eval_rec(&exprs[i], fuel) {
            Ok(v) => {
                let ghost v_v = v@;
                match self.eval_args(exprs, i + 1, fuel) {
                    Ok(mut vs) => {
                        let ghost pre = vs@;
                        vs.insert(0, v);
                        proof {
                            assert(vs@ == pre.insert(0, vs@[0]));
                            assert(vs@[0]@ == v_v);
                            assert forall|j: int| 0 <= j < vs@.len() implies data_views(vs@)[j]
                                == (seq![v_v] + data_views(pre))[j] by {
                                assert(data_views(vs@)[j] == vs@[j]@);
                                if j > 0 {
                                    assert(vs@[j] == pre[j - 1]);
                                    assert(data_views(pre)[j - 1] == pre[j - 1]@);
                                }
                            }
                            assert(data_views(vs@) =~= seq![v_v] + data_views(pre));
                        }
                        Ok(vs)
                    },
                    Err(e) => Err(e),
                }
            },
            Err(e) => Err(e),
        }
    }

    /// Apply a closure to already-evaluated arguments: arity-check, bind
    /// the parameters in a fresh innermost scope, evaluate the body, and
    /// discard the scope whether or not the body succeeded.
    fn apply(&mut self, func: Data, vals: Vec<Data>, fuel: u64) -> (r: Result<
        Data,
        InterpreterError,
    >)
        requires
            old(self).wf(),
        ensures
            final(self).wf(),
            (match func@ {
                DataV::Fn(params, body) => (res_view(r), final(self)@) == apply_spec(
                    old(self)@,
                    params,
                    *body,
                    data_views(vals@),
                    fuel as nat,
                ),
                _ => res_view(r) == Err::<DataV, ErrV>(ErrV::CarNotApplicable) && final(self)@
                    == old(self)@,
            }),
        decreases fuel, 0int, 1int,
    {
        match &func.value {
            DataKind::_Fn(params, body) => {
                if params.len() == vals.len() {
                    let names = clone_names(params);
                    let body2 = (**body).duplicate();
                    self.symbols.enclose();
                    let ghost names_v = name_views(names@);
                    let ghost vals_v = data_views(vals@);
                    let ghost env0 = old(self)@;
                    proof {
                        assert(bind_frame(names_v.take(0), vals_v.take(0))
                            =~= Map::<Seq<char>, DataV>::empty());
                    }
                    let mut i: usize = 0;
                    while i < names.len()
                        invariant
                            self.wf(),
                            i <= names@.len(),
                            names@.len() == vals@.len(),
                            names_v == name_views(names@),
                            vals_v == data_views(vals@),
                            names_v.len() == names@.len(),
                            vals_v.len() == vals@.len(),
                            self@ =~= env0.push(
                                bind_frame(names_v.take(i as int), vals_v.take(i as int)),
                            ),
                        decreases names@.len() - i,
                    {
                        let key = names[i].clone();
                        let value = vals[i].duplicate();
                        self.symbols.insert(key, value);
                        proof {
                            assert(names_v.take(i + 1).drop_last() =~= names_v.take(i as int));
                            assert(vals_v.take(i + 1).drop_last() =~= vals_v.take(i as int));
                            assert(names_v.take(i + 1).last() == names_v[i as int]);
                            assert(vals_v.take(i + 1).last() == vals_v[i as int]);
                            assert(self@ =~= env0.push(
                                bind_frame(names_v.take(i + 1), vals_v.take(i + 1)),
                            ));
                        }
                        i = i + 1;
                    }
                    proof {
                        assert(names_v.take(names_v.len() as int) =~= names_v);
                        assert(vals_v.take(vals_v.len() as int) =~= vals_v);
                    }
                    let rr = self.eval_rec(&body2, fuel);
                    proof {
                        lemma_eval_frames(env0.push(bind_frame(names_v, vals_v)), body2@,
                            fuel as nat);
                    }
                    let d = self.disclose();
                    proof {
                        assert(d is Some);
                    }
                    rr
                } else {
                    Err(InterpreterError::invalid_arguments(Loc(0, 1)))
                }
            },
            _ => Err(InterpreterError::car_not_applicable(func.loc)),
        }
    }
}

} // verus!
