//! The mathematical semantics of the language.
//!
//! `DataV` is the span-free view of a runtime value, `EnvV` the view of the
//! environment: a stack of scope frames, innermost last, each a map from
//! symbol names to values. `eval_spec` defines evaluation itself, indexed by
//! a recursion budget: the budget bounds the nesting depth of evaluation,
//! and stands in for the host call stack that bounds the depth at run time.
//! The executable evaluator is proved to return exactly what `eval_spec`
//! prescribes at `EVAL_BUDGET`, a depth no execution can reach.
use vstd::prelude::*;
use crate::ast::{AstV, OpKind};

verus! {

/// The span-free view of a runtime value (and, since code is data, of an
/// expression).
pub enum DataV {
    Number(i32),
    Boolean(bool),
    Nil,
    Symbol(Seq<char>),
    Pair(Box<DataV>, Box<DataV>),
    Fn(Seq<Seq<char>>, Box<DataV>),
}

/// The span-free view of an evaluation error.
pub enum ErrV {
    InvalidArguments,
    DivisionByZero,
    CarNotApplicable,
    SymbolNotFound(Seq<char>),
    RecursionLimit,
}

pub type NameV = Seq<char>;

pub type FrameV = Map<NameV, DataV>;

/// The environment: scope frames, innermost last.
pub type EnvV = Seq<FrameV>;

/// Innermost-to-outermost search for a binding.
pub open spec fn env_lookup(env: EnvV, name: NameV) -> Option<DataV>
    decreases env.len(),
{
    if env.len() == 0 {
        None
    } else if env.last().contains_key(name) {
        Some(env.last()[name])
    } else {
        env_lookup(env.drop_last(), name)
    }
}

/// Bind (or overwrite) a name in the innermost frame. An environment
/// without frames (which a well-formed interpreter never holds) is left
/// unchanged.
pub open spec fn env_define(env: EnvV, name: NameV, v: DataV) -> EnvV {
    if env.len() == 0 {
        env
    } else {
        env.update(env.len() - 1, env.last().insert(name, v))
    }
}

/// The frame that binds `params` to `vals` positionally; a repeated
/// parameter name keeps its last value.
pub open spec fn bind_frame(params: Seq<NameV>, vals: Seq<DataV>) -> FrameV
    recommends
        params.len() == vals.len(),
    decreases params.len(),
{
    if params.len() == 0 {
        Map::empty()
    } else {
        bind_frame(params.drop_last(), vals.drop_last()).insert(params.last(), vals.last())
    }
}

/// The argument expressions of an application: the cons chain flattened
/// into a sequence. `None` when the chain does not end in nil.
pub open spec fn flatten_args(e: DataV) -> Option<Seq<DataV>>
    decreases e,
{
    match e {
        DataV::Nil => Some(Seq::empty()),
        DataV::Pair(l, r) => match flatten_args(*r) {
            Some(rest) => Some(seq![*l] + rest),
            None => None,
        },
        _ => None,
    }
}

/// The parameter names of a lambda form: a proper list of symbols.
pub open spec fn param_names(e: DataV) -> Option<Seq<NameV>>
    decreases e,
{
    match e {
        DataV::Nil => Some(Seq::empty()),
        DataV::Pair(l, r) => match *l {
            DataV::Symbol(s) => match param_names(*r) {
                Some(rest) => Some(seq![s] + rest),
                None => None,
            },
            _ => None,
        },
        _ => None,
    }
}

/// The symbol name each operator atom desugars to.
pub open spec fn op_name(k: OpKind) -> NameV {
    match k {
        OpKind::Add => "add"@,
        OpKind::Sub => "sub"@,
        OpKind::Mul => "mul"@,
        OpKind::Div => "div"@,
        OpKind::Rem => "rem"@,
        OpKind::Lt => "lt"@,
        OpKind::Equal => "eq"@,
        OpKind::Gt => "gt"@,
        OpKind::And => "and"@,
        OpKind::Or => "or"@,
        OpKind::Not => "not"@,
        OpKind::Xor => "xor"@,
    }
}

/// Desugaring: the surface tree as a runtime value. Numbers become 32-bit
/// signed numbers (reinterpreting the unsigned literal), operator atoms
/// become symbols, and a quote node becomes a `(quote . X)` pair.
pub open spec fn desugar(a: AstV) -> DataV
    decreases a,
{
    match a {
        AstV::Num(n) => DataV::Number(n as i32),
        AstV::Sym(s) => DataV::Symbol(s),
        AstV::Op(k) => DataV::Symbol(op_name(k)),
        AstV::Nil => DataV::Nil,
        AstV::Pair(l, r) => DataV::Pair(Box::new(desugar(*l)), Box::new(desugar(*r))),
        AstV::Quote(q) => DataV::Pair(
            Box::new(DataV::Symbol("quote"@)),
            Box::new(desugar(*q)),
        ),
    }
}

// ---------------------------------------------------------------------
// Primitive operations. Each takes the already-evaluated argument values.
// Arithmetic wraps modulo 2^32 (the documented overflow policy); shift
// amounts are taken modulo 32.
// ---------------------------------------------------------------------

pub open spec fn add_spec(args: Seq<DataV>) -> Result<DataV, ErrV> {
    if args.len() == 2 {
        match (args[0], args[1]) {
            (DataV::Number(l), DataV::Number(r)) => Ok(
                DataV::Number(vstd::wrapping::i32_specs::wrapping_add(l, r)),
            ),
            _ => Err(ErrV::InvalidArguments),
        }
    } else {
        Err(ErrV::InvalidArguments)
    }
}

pub open spec fn sub_spec(args: Seq<DataV>) -> Result<DataV, ErrV> {
    if args.len() == 2 {
        match (args[0], args[1]) {
            (DataV::Number(l), DataV::Number(r)) => Ok(
                DataV::Number(vstd::wrapping::i32_specs::wrapping_sub(l, r)),
            ),
            _ => Err(ErrV::InvalidArguments),
        }
    } else {
        Err(ErrV::InvalidArguments)
    }
}

pub open spec fn mul_spec(args: Seq<DataV>) -> Result<DataV, ErrV> {
    if args.len() == 2 {
        match (args[0], args[1]) {
            (DataV::Number(l), DataV::Number(r)) => Ok(
                DataV::Number(vstd::wrapping::i32_specs::wrapping_mul(l, r)),
            ),
            _ => Err(ErrV::InvalidArguments),
        }
    } else {
        Err(ErrV::InvalidArguments)
    }
}

/// Truncating division, wrapping on the one overflowing case
/// (`i32::MIN / -1`).
pub open spec fn div_wrap(l: i32, r: i32) -> i32
    recommends
        r != 0,
{
    match l.checked_div(r) {
        Some(q) => q,
        None => i32::MIN,
    }
}

/// Truncating remainder, zero on the one overflowing case
/// (`i32::MIN % -1`).
pub open spec fn rem_wrap(l: i32, r: i32) -> i32
    recommends
        r != 0,
{
    match l.checked_rem(r) {
        Some(q) => q,
        None => 0i32,
    }
}

pub open spec fn div_spec(args: Seq<DataV>) -> Result<DataV, ErrV> {
    if args.len() == 2 {
        match (args[0], args[1]) {
            (DataV::Number(l), DataV::Number(r)) => if r == 0 {
                Err(ErrV::DivisionByZero)
            } else {
                Ok(DataV::Number(div_wrap(l, r)))
            },
            _ => Err(ErrV::InvalidArguments),
        }
    } else {
        Err(ErrV::InvalidArguments)
    }
}

pub open spec fn rem_spec(args: Seq<DataV>) -> Result<DataV, ErrV> {
    if args.len() == 2 {
        match (args[0], args[1]) {
            (DataV::Number(l), DataV::Number(r)) => if r == 0 {
                Err(ErrV::DivisionByZero)
            } else {
                Ok(DataV::Number(rem_wrap(l, r)))
            },
            _ => Err(ErrV::InvalidArguments),
        }
    } else {
        Err(ErrV::InvalidArguments)
    }
}

pub open spec fn gt_spec(args: Seq<DataV>) -> Result<DataV, ErrV> {
    if args.len() == 2 {
        match (args[0], args[1]) {
            (DataV::Number(l), DataV::Number(r)) => Ok(DataV::Boolean(l > r)),
            _ => Err(ErrV::InvalidArguments),
        }
    } else {
        Err(ErrV::InvalidArguments)
    }
}

pub open spec fn ge_spec(args: Seq<DataV>) -> Result<DataV, ErrV> {
    if args.len() == 2 {
        match (args[0], args[1]) {
            (DataV::Number(l), DataV::Number(r)) => Ok(DataV::Boolean(l >= r)),
            _ => Err(ErrV::InvalidArguments),
        }
    } else {
        Err(ErrV::InvalidArguments)
    }
}

pub open spec fn lt_spec(args: Seq<DataV>) -> Result<DataV, ErrV> {
    if args.len() == 2 {
        match (args[0], args[1]) {
            (DataV::Number(l), DataV::Number(r)) => Ok(DataV::Boolean(l < r)),
            _ => Err(ErrV::InvalidArguments),
        }
    } else {
        Err(ErrV::InvalidArguments)
    }
}

pub open spec fn le_spec(args: Seq<DataV>) -> Result<DataV, ErrV> {
    if args.len() == 2 {
        match (args[0], args[1]) {
            (DataV::Number(l), DataV::Number(r)) => Ok(DataV::Boolean(l <= r)),
            _ => Err(ErrV::InvalidArguments),
        }
    } else {
        Err(ErrV::InvalidArguments)
    }
}

/// Structural equality of atoms: numbers with numbers, booleans with
/// booleans, nil with nil; nil beside any other value compares unequal;
/// any other mixed pair is an error.
pub open spec fn eq_spec(args: Seq<DataV>) -> Result<DataV, ErrV> {
    if args.len() == 2 {
        match (args[0], args[1]) {
            (DataV::Number(l), DataV::Number(r)) => Ok(DataV::Boolean(l == r)),
            (DataV::Boolean(l), DataV::Boolean(r)) => Ok(DataV::Boolean(l == r)),
            (DataV::Nil, DataV::Nil) => Ok(DataV::Boolean(true)),
            (DataV::Nil, _) => Ok(DataV::Boolean(false)),
            (_, DataV::Nil) => Ok(DataV::Boolean(false)),
            _ => Err(ErrV::InvalidArguments),
        }
    } else {
        Err(ErrV::InvalidArguments)
    }
}

pub open spec fn ne_spec(args: Seq<DataV>) -> Result<DataV, ErrV> {
    if args.len() == 2 {
        match (args[0], args[1]) {
            (DataV::Number(l), DataV::Number(r)) => Ok(DataV::Boolean(l != r)),
            (DataV::Boolean(l), DataV::Boolean(r)) => Ok(DataV::Boolean(l != r)),
            (DataV::Nil, DataV::Nil) => Ok(DataV::Boolean(false)),
            (DataV::Nil, _) => Ok(DataV::Boolean(true)),
            (_, DataV::Nil) => Ok(DataV::Boolean(true)),
            _ => Err(ErrV::InvalidArguments),
        }
    } else {
        Err(ErrV::InvalidArguments)
    }
}

pub open spec fn and_spec(args: Seq<DataV>) -> Result<DataV, ErrV> {
    if args.len() == 2 {
        match (args[0], args[1]) {
            (DataV::Number(l), DataV::Number(r)) => Ok(DataV::Number(l & r)),
            (DataV::Boolean(l), DataV::Boolean(r)) => Ok(DataV::Boolean(l && r)),
            _ => Err(ErrV::InvalidArguments),
        }
    } else {
        Err(ErrV::InvalidArguments)
    }
}

pub open spec fn or_spec(args: Seq<DataV>) -> Result<DataV, ErrV> {
    if args.len() == 2 {
        match (args[0], args[1]) {
            (DataV::Number(l), DataV::Number(r)) => Ok(DataV::Number(l | r)),
            (DataV::Boolean(l), DataV::Boolean(r)) => Ok(DataV::Boolean(l || r)),
            _ => Err(ErrV::InvalidArguments),
        }
    } else {
        Err(ErrV::InvalidArguments)
    }
}

pub open spec fn xor_spec(args: Seq<DataV>) -> Result<DataV, ErrV> {
    if args.len() == 2 {
        match (args[0], args[1]) {
            (DataV::Number(l), DataV::Number(r)) => Ok(DataV::Number(l ^ r)),
            (DataV::Boolean(l), DataV::Boolean(r)) => Ok(DataV::Boolean(l != r)),
            _ => Err(ErrV::InvalidArguments),
        }
    } else {
        Err(ErrV::InvalidArguments)
    }
}

pub open spec fn not_spec(args: Seq<DataV>) -> Result<DataV, ErrV> {
    if args.len() == 1 {
        match args[0] {
            DataV::Number(n) => Ok(DataV::Number(!n)),
            DataV::Boolean(b) => Ok(DataV::Boolean(!b)),
            _ => Err(ErrV::InvalidArguments),
        }
    } else {
        Err(ErrV::InvalidArguments)
    }
}

pub open spec fn shl_spec(args: Seq<DataV>) -> Result<DataV, ErrV> {
    if args.len() == 2 {
        match (args[0], args[1]) {
            (DataV::Number(l), DataV::Number(r)) => Ok(
                DataV::Number(vstd::wrapping::i32_specs::wrapping_shl(l, r as u32)),
            ),
            _ => Err(ErrV::InvalidArguments),
        }
    } else {
        Err(ErrV::InvalidArguments)
    }
}

pub open spec fn shr_spec(args: Seq<DataV>) -> Result<DataV, ErrV> {
    if args.len() == 2 {
        match (args[0], args[1]) {
            (DataV::Number(l), DataV::Number(r)) => Ok(
                DataV::Number(vstd::wrapping::i32_specs::wrapping_shr(l, r as u32)),
            ),
            _ => Err(ErrV::InvalidArguments),
        }
    } else {
        Err(ErrV::InvalidArguments)
    }
}

/// `atom`: true of every value but pairs and closures.
pub open spec fn atom_spec(args: Seq<DataV>) -> Result<DataV, ErrV> {
    if args.len() == 1 {
        match args[0] {
            DataV::Pair(_, _) => Ok(DataV::Boolean(false)),
            DataV::Fn(_, _) => Ok(DataV::Boolean(false)),
            _ => Ok(DataV::Boolean(true)),
        }
    } else {
        Err(ErrV::InvalidArguments)
    }
}

pub open spec fn car_spec(args: Seq<DataV>) -> Result<DataV, ErrV> {
    if args.len() == 1 {
        match args[0] {
            DataV::Pair(l, _) => Ok(*l),
            _ => Err(ErrV::InvalidArguments),
        }
    } else {
        Err(ErrV::InvalidArguments)
    }
}

pub open spec fn cdr_spec(args: Seq<DataV>) -> Result<DataV, ErrV> {
    if args.len() == 1 {
        match args[0] {
            DataV::Pair(_, r) => Ok(*r),
            _ => Err(ErrV::InvalidArguments),
        }
    } else {
        Err(ErrV::InvalidArguments)
    }
}

pub open spec fn cons_spec(args: Seq<DataV>) -> Result<DataV, ErrV> {
    if args.len() == 2 {
        Ok(DataV::Pair(Box::new(args[0]), Box::new(args[1])))
    } else {
        Err(ErrV::InvalidArguments)
    }
}

/// `lambda`: its arguments are a parameter list and one body expression.
pub open spec fn lambda_spec(args: Seq<DataV>) -> Result<DataV, ErrV> {
    if args.len() == 2 {
        match param_names(args[0]) {
            Some(ns) => Ok(DataV::Fn(ns, Box::new(args[1]))),
            None => Err(ErrV::InvalidArguments),
        }
    } else {
        Err(ErrV::InvalidArguments)
    }
}

/// Whether `s` names a primitive. Primitive names shadow environment
/// bindings in application position.
pub open spec fn is_builtin(s: NameV) -> bool {
    ||| s == "add"@
    ||| s == "sub"@
    ||| s == "mul"@
    ||| s == "div"@
    ||| s == "rem"@
    ||| s == "gt"@
    ||| s == "ge"@
    ||| s == "eq"@
    ||| s == "ne"@
    ||| s == "lt"@
    ||| s == "le"@
    ||| s == "and"@
    ||| s == "or"@
    ||| s == "not"@
    ||| s == "xor"@
    ||| s == "shl"@
    ||| s == "shr"@
    ||| s == "atom"@
    ||| s == "car"@
    ||| s == "cdr"@
    ||| s == "cons"@
}

/// Dispatch a primitive by name over already-evaluated argument values.
pub open spec fn builtin_result(s: NameV, vals: Seq<DataV>) -> Result<DataV, ErrV>
    recommends
        is_builtin(s),
{
    if s == "add"@ {
        add_spec(vals)
    } else if s == "sub"@ {
        sub_spec(vals)
    } else if s == "mul"@ {
        mul_spec(vals)
    } else if s == "div"@ {
        div_spec(vals)
    } else if s == "rem"@ {
        rem_spec(vals)
    } else if s == "gt"@ {
        gt_spec(vals)
    } else if s == "ge"@ {
        ge_spec(vals)
    } else if s == "eq"@ {
        eq_spec(vals)
    } else if s == "ne"@ {
        ne_spec(vals)
    } else if s == "lt"@ {
        lt_spec(vals)
    } else if s == "le"@ {
        le_spec(vals)
    } else if s == "and"@ {
        and_spec(vals)
    } else if s == "or"@ {
        or_spec(vals)
    } else if s == "not"@ {
        not_spec(vals)
    } else if s == "xor"@ {
        xor_spec(vals)
    } else if s == "shl"@ {
        shl_spec(vals)
    } else if s == "shr"@ {
        shr_spec(vals)
    } else if s == "atom"@ {
        atom_spec(vals)
    } else if s == "car"@ {
        car_spec(vals)
    } else if s == "cdr"@ {
        cdr_spec(vals)
    } else if s == "cons"@ {
        cons_spec(vals)
    } else {
        Err(ErrV::CarNotApplicable)
    }
}

// ---------------------------------------------------------------------
// Evaluation. The budget bounds the nesting depth: every recursive step
// spends one unit, and a spent budget yields a recursion-limit error.
// ---------------------------------------------------------------------

/// One evaluation step, by the dispatch order of the language:
/// numbers, booleans, nil and closures are self-evaluating; symbols
/// resolve through the keywords `true`, `false`, `nil` and then the
/// environment; a pair is an application form. In an application whose
/// head is syntactically a symbol, the special forms `quote`, `lambda`,
/// `define` and `if` come first (their arguments unevaluated), then the
/// arguments are evaluated left to right and the primitives dispatch by
/// name, and last the symbol's binding is applied as a closure. Any other
/// head is itself evaluated and must yield a closure.
pub open spec fn eval_spec(env: EnvV, e: DataV, fuel: nat) -> (Result<DataV, ErrV>, EnvV)
    decreases fuel, 0int, 0int,
{
    if fuel == 0 {
        (Err(ErrV::RecursionLimit), env)
    } else {
        let f = (fuel - 1) as nat;
        match e {
            DataV::Number(_) => (Ok(e), env),
            DataV::Boolean(_) => (Ok(e), env),
            DataV::Nil => (Ok(e), env),
            DataV::Fn(_, _) => (Ok(e), env),
            DataV::Symbol(s) => if s == "true"@ {
                (Ok(DataV::Boolean(true)), env)
            } else if s == "false"@ {
                (Ok(DataV::Boolean(false)), env)
            } else if s == "nil"@ {
                (Ok(DataV::Nil), env)
            } else {
                match env_lookup(env, s) {
                    Some(v) => (Ok(v), env),
                    None => (Err(ErrV::SymbolNotFound(s)), env),
                }
            },
            DataV::Pair(head, tail) => match *head {
                DataV::Symbol(s) => if s == "quote"@ {
                    (Ok(*tail), env)
                } else if s == "lambda"@ {
                    match flatten_args(*tail) {
                        Some(parts) => (lambda_spec(parts), env),
                        None => (Err(ErrV::InvalidArguments), env),
                    }
                } else if s == "define"@ {
                    match flatten_args(*tail) {
                        Some(parts) => if parts.len() == 2 {
                            match parts[0] {
                                DataV::Symbol(name) => {
                                    let (r1, env1) = eval_spec(env, parts[1], f);
                                    match r1 {
                                        Ok(v) => (Ok(DataV::Nil), env_define(env1, name, v)),
                                        Err(er) => (Err(er), env1),
                                    }
                                },
                                _ => (Err(ErrV::InvalidArguments), env),
                            }
                        } else {
                            (Err(ErrV::InvalidArguments), env)
                        },
                        None => (Err(ErrV::InvalidArguments), env),
                    }
                } else if s == "if"@ {
                    match flatten_args(*tail) {
                        Some(parts) => if parts.len() == 3 {
                            let (r1, env1) = eval_spec(env, parts[0], f);
                            match r1 {
                                Ok(DataV::Boolean(b)) => if b {
                                    eval_spec(env1, parts[1], f)
                                } else {
                                    eval_spec(env1, parts[2], f)
                                },
                                Ok(_) => (Err(ErrV::InvalidArguments), env1),
                                Err(er) => (Err(er), env1),
                            }
                        } else {
                            (Err(ErrV::InvalidArguments), env)
                        },
                        None => (Err(ErrV::InvalidArguments), env),
                    }
                } else {
                    match flatten_args(*tail) {
                        Some(arg_exprs) => {
                            let (r1, env1) = eval_args_spec(env, arg_exprs, f);
                            match r1 {
                                Ok(vals) => if is_builtin(s) {
                                    (builtin_result(s, vals), env1)
                                } else {
                                    match env_lookup(env1, s) {
                                        Some(DataV::Fn(params, body)) => apply_spec(
                                            env1,
                                            params,
                                            *body,
                                            vals,
                                            f,
                                        ),
                                        Some(_) => (Err(ErrV::CarNotApplicable), env1),
                                        None => (Err(ErrV::CarNotApplicable), env1),
                                    }
                                },
                                Err(er) => (Err(er), env1),
                            }
                        },
                        None => (Err(ErrV::InvalidArguments), env),
                    }
                },
                _ => {
                    let (r1, env1) = eval_spec(env, *head, f);
                    match r1 {
                        Ok(DataV::Fn(params, body)) => match flatten_args(*tail) {
                            Some(arg_exprs) => {
                                let (r2, env2) = eval_args_spec(env1, arg_exprs, f);
                                match r2 {
                                    Ok(vals) => apply_spec(env2, params, *body, vals, f),
                                    Err(er) => (Err(er), env2),
                                }
                            },
                            None => (Err(ErrV::InvalidArguments), env1),
                        },
                        Ok(_) => (Err(ErrV::CarNotApplicable), env1),
                        Err(er) => (Err(er), env1),
                    }
                },
            },
        }
    }
}

/// Left-to-right evaluation of argument expressions, threading the
/// environment; the first error stops the sequence.
pub open spec fn eval_args_spec(env: EnvV, args: Seq<DataV>, fuel: nat) -> (Result<
    Seq<DataV>,
    ErrV,
>, EnvV)
    decreases fuel, 1int, args.len(),
{
    if args.len() == 0 {
        (Ok(Seq::empty()), env)
    } else {
        let (r1, env1) = eval_spec(env, args[0], fuel);
        match r1 {
            Ok(v) => {
                let (r2, env2) = eval_args_spec(env1, args.drop_first(), fuel);
                match r2 {
                    Ok(vs) => (Ok(seq![v] + vs), env2),
                    Err(er) => (Err(er), env2),
                }
            },
            Err(er) => (Err(er), env1),
        }
    }
}

/// Closure application: arity-checked positional binding in a freshly
/// enclosed scope, which is discarded afterwards whether or not the body
/// evaluation succeeds.
pub open spec fn apply_spec(
    env: EnvV,
    params: Seq<NameV>,
    body: DataV,
    vals: Seq<DataV>,
    fuel: nat,
) -> (Result<DataV, ErrV>, EnvV)
    decreases fuel, 0int, 1int,
{
    if params.len() == vals.len() {
        let (r, env2) = eval_spec(env.push(bind_frame(params, vals)), body, fuel);
        (r, env2.drop_last())
    } else {
        (Err(ErrV::InvalidArguments), env)
    }
}

/// Evaluation touches no frame but the innermost: the frame count is
/// preserved, and every enclosing frame comes out exactly as it went in.
/// This is the scope-isolation guarantee: a closure call's parameter
/// bindings, and any `define` within it, never leak into the caller's
/// enclosing scopes.
pub proof fn lemma_eval_frames(env: EnvV, e: DataV, fuel: nat)
    ensures
        eval_spec(env, e, fuel).1.len() == env.len(),
        forall|i: int| 0 <= i < env.len() - 1 ==> eval_spec(env, e, fuel).1[i] == env[i],
    decreases fuel, 0int, 0int,
{
    if fuel == 0 {
    } else {
        let f = (fuel - 1) as nat;
        match e {
            DataV::Pair(head, tail) => match *head {
                DataV::Symbol(s) => {
                    if s == "quote"@ || s == "lambda"@ {
                    } else if s == "define"@ {
                        match flatten_args(*tail) {
                            Some(parts) => if parts.len() == 2 {
                                match parts[0] {
                                    DataV::Symbol(name) => {
                                        lemma_eval_frames(env, parts[1], f);
                                    },
                                    _ => {},
                                }
                            } else {
                            },
                            None => {},
                        }
                    } else if s == "if"@ {
                        match flatten_args(*tail) {
                            Some(parts) => if parts.len() == 3 {
                                lemma_eval_frames(env, parts[0], f);
                                let (r1, env1) = eval_spec(env, parts[0], f);
                                match r1 {
                                    Ok(DataV::Boolean(b)) => if b {
                                        lemma_eval_frames(env1, parts[1], f);
                                    } else {
                                        lemma_eval_frames(env1, parts[2], f);
                                    },
                                    _ => {},
                                }
                            } else {
                            },
                            None => {},
                        }
                    } else {
                        match flatten_args(*tail) {
                            Some(arg_exprs) => {
                                lemma_eval_args_frames(env, arg_exprs, f);
                                let (r1, env1) = eval_args_spec(env, arg_exprs, f);
                                match r1 {
                                    Ok(vals) => if !is_builtin(s) {
                                        match env_lookup(env1, s) {
                                            Some(DataV::Fn(params, body)) => {
                                                lemma_apply_frames(env1, params, *body, vals, f);
                                            },
                                            _ => {},
                                        }
                                    } else {
                                    },
                                    _ => {},
                                }
                            },
                            None => {},
                        }
                    }
                },
                _ => {
                    lemma_eval_frames(env, *head, f);
                    let (r1, env1) = eval_spec(env, *head, f);
                    match r1 {
                        Ok(DataV::Fn(params, body)) => match flatten_args(*tail) {
                            Some(arg_exprs) => {
                                lemma_eval_args_frames(env1, arg_exprs, f);
                                let (r2, env2) = eval_args_spec(env1, arg_exprs, f);
                                match r2 {
                                    Ok(vals) => {
                                        lemma_apply_frames(env2, params, *body, vals, f);
                                    },
                                    _ => {},
                                }
                            },
                            None => {},
                        },
                        _ => {},
                    }
                },
            },
            _ => {},
        }
    }
}

pub proof fn lemma_eval_args_frames(env: EnvV, args: Seq<DataV>, fuel: nat)
    ensures
        eval_args_spec(env, args, fuel).1.len() == env.len(),
        forall|i: int| 0 <= i < env.len() - 1 ==> eval_args_spec(env, args, fuel).1[i] == env[i],
    decreases fuel, 1int, args.len(),
{
    if args.len() == 0 {
    } else {
        lemma_eval_frames(env, args[0], fuel);
        let (r1, env1) = eval_spec(env, args[0], fuel);
        match r1 {
            Ok(v) => {
                lemma_eval_args_frames(env1, args.drop_first(), fuel);
            },
            _ => {},
        }
    }
}

pub proof fn lemma_apply_frames(
    env: EnvV,
    params: Seq<NameV>,
    body: DataV,
    vals: Seq<DataV>,
    fuel: nat,
)
    ensures
        apply_spec(env, params, body, vals, fuel).1.len() == env.len(),
        forall|i: int|
            0 <= i < env.len() - 1 ==> apply_spec(env, params, body, vals, fuel).1[i] == env[i],
        params.len() == vals.len() ==> eval_spec(
            env.push(bind_frame(params, vals)),
            body,
            fuel,
        ).1.len() == env.len() + 1,
    decreases fuel, 0int, 1int,
{
    if params.len() == vals.len() {
        lemma_eval_frames(env.push(bind_frame(params, vals)), body, fuel);
        let env2 = eval_spec(env.push(bind_frame(params, vals)), body, fuel).1;
        assert(env2.len() == env.len() + 1);
        assert forall|i: int| 0 <= i < env.len() - 1 implies env2.drop_last()[i] == env[i] by {
            assert(env2[i] == env.push(bind_frame(params, vals))[i]);
        }
    }
}

} // verus!
