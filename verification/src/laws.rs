//! The language's structural laws, proved of the semantics in `semantics`.
//!
//! Each law speaks of `eval_spec`; the executable `Interpreter::eval` is
//! proved to compute exactly `eval_spec` at its depth budget, so every law
//! transfers to it. Laws that need to evaluate sub-expressions ask for the
//! few units of budget those steps take.
use vstd::prelude::*;
use crate::semantics::{
    DataV, ErrV, EnvV, env_define, env_lookup, eval_spec, eval_args_spec, flatten_args,
    param_names, lemma_eval_frames,
};

verus! {

broadcast use vstd::string::group_string_axioms;

/// The application form `(h a)`.
pub open spec fn app1(h: DataV, a: DataV) -> DataV {
    DataV::Pair(Box::new(h), Box::new(DataV::Pair(Box::new(a), Box::new(DataV::Nil))))
}

/// The application form `(h a b)`.
pub open spec fn app2(h: DataV, a: DataV, b: DataV) -> DataV {
    DataV::Pair(
        Box::new(h),
        Box::new(
            DataV::Pair(
                Box::new(a),
                Box::new(DataV::Pair(Box::new(b), Box::new(DataV::Nil))),
            ),
        ),
    )
}

/// The application form `(h a b c)`.
pub open spec fn app3(h: DataV, a: DataV, b: DataV, c: DataV) -> DataV {
    DataV::Pair(
        Box::new(h),
        Box::new(
            DataV::Pair(
                Box::new(a),
                Box::new(
                    DataV::Pair(
                        Box::new(b),
                        Box::new(DataV::Pair(Box::new(c), Box::new(DataV::Nil))),
                    ),
                ),
            ),
        ),
    )
}

/// Lengths and distinguishing characters of the special-form, keyword and
/// primitive names, so that the dispatch chain's comparisons settle.
proof fn lemma_name_chars()
    ensures
        "quote"@.len() == 5,
        "lambda"@.len() == 6 && "lambda"@[0] == 'l',
        "define"@.len() == 6 && "define"@[0] == 'd',
        "if"@.len() == 2,
        "true"@.len() == 4 && "true"@[0] == 't',
        "false"@.len() == 5 && "false"@[0] == 'f',
        "nil"@.len() == 3 && "nil"@[0] == 'n',
        "add"@.len() == 3 && "add"@[0] == 'a',
        "sub"@.len() == 3 && "sub"@[0] == 's',
        "mul"@.len() == 3 && "mul"@[0] == 'm',
        "div"@.len() == 3 && "div"@[0] == 'd',
        "rem"@.len() == 3 && "rem"@[0] == 'r',
        "gt"@.len() == 2 && "gt"@[0] == 'g',
        "ge"@.len() == 2 && "ge"@[0] == 'g' && "ge"@[1] == 'e',
        "eq"@.len() == 2 && "eq"@[0] == 'e',
        "ne"@.len() == 2 && "ne"@[0] == 'n',
        "lt"@.len() == 2 && "lt"@[0] == 'l',
        "le"@.len() == 2 && "le"@[0] == 'l' && "le"@[1] == 'e',
        "and"@.len() == 3 && "and"@[0] == 'a' && "and"@[1] == 'n',
        "or"@.len() == 2 && "or"@[0] == 'o',
        "not"@.len() == 3 && "not"@[0] == 'n',
        "xor"@.len() == 3 && "xor"@[0] == 'x',
        "shl"@.len() == 3 && "shl"@[0] == 's' && "shl"@[2] == 'l',
        "shr"@.len() == 3 && "shr"@[0] == 's' && "shr"@[2] == 'r',
        "atom"@.len() == 4 && "atom"@[0] == 'a',
        "car"@.len() == 3 && "car"@[0] == 'c' && "car"@[1] == 'a',
        "cdr"@.len() == 3 && "cdr"@[0] == 'c' && "cdr"@[1] == 'd',
        "cons"@.len() == 4 && "cons"@[0] == 'c',
{
    reveal_strlit("quote");
    reveal_strlit("lambda");
    reveal_strlit("define");
    reveal_strlit("if");
    reveal_strlit("true");
    reveal_strlit("false");
    reveal_strlit("nil");
    reveal_strlit("add");
    reveal_strlit("sub");
    reveal_strlit("mul");
    reveal_strlit("div");
    reveal_strlit("rem");
    reveal_strlit("gt");
    reveal_strlit("ge");
    reveal_strlit("eq");
    reveal_strlit("ne");
    reveal_strlit("lt");
    reveal_strlit("le");
    reveal_strlit("and");
    reveal_strlit("or");
    reveal_strlit("not");
    reveal_strlit("xor");
    reveal_strlit("shl");
    reveal_strlit("shr");
    reveal_strlit("atom");
    reveal_strlit("car");
    reveal_strlit("cdr");
    reveal_strlit("cons");
}

/// Quoting returns the quoted value verbatim, whatever it is, and leaves
/// the environment alone: `(quote . x)` evaluates to `x`. In particular a
/// quoted form evaluates to exactly what the desugarer made of its text.
pub proof fn lemma_quote(env: EnvV, x: DataV, fuel: nat)
    requires
        fuel >= 1,
    ensures
        eval_spec(env, DataV::Pair(Box::new(DataV::Symbol("quote"@)), Box::new(x)), fuel) == (
        Ok::<DataV, ErrV>(x),
        env,
        ),
{
}

/// `(if true a b)` evaluates `a` alone, and `(if false a b)` evaluates
/// `b` alone: the answer does not mention the non-taken branch, so that
/// branch is never evaluated.
#[verifier::rlimit(50)]
pub proof fn lemma_if_branches(env: EnvV, a: DataV, b: DataV, fuel: nat)
    requires
        fuel >= 2,
    ensures
        eval_spec(env, app3(DataV::Symbol("if"@), DataV::Symbol("true"@), a, b), fuel)
            == eval_spec(env, a, (fuel - 1) as nat),
        eval_spec(env, app3(DataV::Symbol("if"@), DataV::Symbol("false"@), a, b), fuel)
            == eval_spec(env, b, (fuel - 1) as nat),
{
    lemma_name_chars();
    reveal_with_fuel(flatten_args, 5);
    reveal_with_fuel(eval_spec, 3);
    let f = (fuel - 1) as nat;
    let t_sym = DataV::Symbol("true"@);
    let f_sym = DataV::Symbol("false"@);
    let tail_t = DataV::Pair(
        Box::new(t_sym),
        Box::new(DataV::Pair(Box::new(a), Box::new(DataV::Pair(Box::new(b), Box::new(DataV::Nil))))),
    );
    assert(flatten_args(tail_t) is Some);
    let parts_t = flatten_args(tail_t)->Some_0;
    assert(parts_t =~= seq![t_sym, a, b]);
    assert(eval_spec(env, t_sym, f) == (Ok::<DataV, ErrV>(DataV::Boolean(true)), env));
    assert(eval_spec(env, app3(DataV::Symbol("if"@), t_sym, a, b), fuel) == eval_spec(env, a, f));
    let tail_f = DataV::Pair(
        Box::new(f_sym),
        Box::new(DataV::Pair(Box::new(a), Box::new(DataV::Pair(Box::new(b), Box::new(DataV::Nil))))),
    );
    assert(flatten_args(tail_f) is Some);
    let parts_f = flatten_args(tail_f)->Some_0;
    assert(parts_f =~= seq![f_sym, a, b]);
    assert(eval_spec(env, f_sym, f) == (Ok::<DataV, ErrV>(DataV::Boolean(false)), env));
    assert(eval_spec(env, app3(DataV::Symbol("if"@), f_sym, a, b), fuel) == eval_spec(env, b, f));
}

/// `(cons x y)` builds the pair of two numbers without touching the
/// environment.
proof fn lemma_cons_eval(env: EnvV, x: i32, y: i32, fuel: nat)
    requires
        fuel >= 2,
    ensures
        eval_spec(env, app2(DataV::Symbol("cons"@), DataV::Number(x), DataV::Number(y)), fuel)
            == (
        Ok::<DataV, ErrV>(DataV::Pair(Box::new(DataV::Number(x)), Box::new(DataV::Number(y)))),
        env,
        ),
{
    lemma_name_chars();
    reveal_with_fuel(flatten_args, 4);
    reveal_with_fuel(eval_spec, 3);
    reveal_with_fuel(eval_args_spec, 4);
    let f = (fuel - 1) as nat;
    let nx = DataV::Number(x);
    let ny = DataV::Number(y);
    let tail = DataV::Pair(Box::new(nx), Box::new(DataV::Pair(Box::new(ny), Box::new(DataV::Nil))));
    assert(flatten_args(tail) is Some);
    let parts = flatten_args(tail)->Some_0;
    assert(parts =~= seq![nx, ny]);
    assert(eval_args_spec(env, parts, f) == (Ok::<Seq<DataV>, ErrV>(seq![nx] + (seq![ny]
        + Seq::<DataV>::empty())), env));
    assert((seq![nx] + (seq![ny] + Seq::<DataV>::empty())) =~= seq![nx, ny]);
}

/// The structural round trip of pairs: for all numbers `x`, `y`,
/// `(cons x y)` evaluates to the pair of `x` and `y`, and `car` and `cdr`
/// of `(cons x y)` recover exactly `x` and `y`; the environment is
/// untouched throughout.
pub proof fn lemma_pair_round_trip(env: EnvV, x: i32, y: i32, fuel: nat)
    requires
        fuel >= 3,
    ensures
        eval_spec(env, app2(DataV::Symbol("cons"@), DataV::Number(x), DataV::Number(y)), fuel)
            == (
        Ok::<DataV, ErrV>(DataV::Pair(Box::new(DataV::Number(x)), Box::new(DataV::Number(y)))),
        env,
        ),
        eval_spec(
            env,
            app1(
                DataV::Symbol("car"@),
                app2(DataV::Symbol("cons"@), DataV::Number(x), DataV::Number(y)),
            ),
            fuel,
        ) == (Ok::<DataV, ErrV>(DataV::Number(x)), env),
        eval_spec(
            env,
            app1(
                DataV::Symbol("cdr"@),
                app2(DataV::Symbol("cons"@), DataV::Number(x), DataV::Number(y)),
            ),
            fuel,
        ) == (Ok::<DataV, ErrV>(DataV::Number(y)), env),
{
    lemma_name_chars();
    reveal_with_fuel(flatten_args, 4);
    reveal_with_fuel(eval_spec, 2);
    reveal_with_fuel(eval_args_spec, 3);
    let f = (fuel - 1) as nat;
    lemma_cons_eval(env, x, y, fuel);
    lemma_cons_eval(env, x, y, f);
    let cons_e = app2(DataV::Symbol("cons"@), DataV::Number(x), DataV::Number(y));
    let pair_v = DataV::Pair(Box::new(DataV::Number(x)), Box::new(DataV::Number(y)));
    let tail1 = DataV::Pair(Box::new(cons_e), Box::new(DataV::Nil));
    assert(flatten_args(tail1) is Some);
    assert(flatten_args(tail1)->Some_0 =~= seq![cons_e]);
    assert(eval_args_spec(env, seq![cons_e], f) == (Ok::<Seq<DataV>, ErrV>(seq![pair_v]
        + Seq::<DataV>::empty()), env));
    assert((seq![pair_v] + Seq::<DataV>::empty()) =~= seq![pair_v]);
}

/// `define` followed by a reference: evaluating `(define name vexpr)`
/// evaluates `vexpr`, binds the result in the innermost scope, and
/// returns nil; referring to `name` afterwards yields exactly the bound
/// value. The keywords `true`, `false` and `nil` are left out: they
/// shadow any binding of the same name.
pub proof fn lemma_define_then_lookup(
    env: EnvV,
    name: Seq<char>,
    vexpr: DataV,
    fuel: nat,
    g: nat,
)
    requires
        fuel >= 2,
        g >= 1,
        env.len() >= 1,
        name != "true"@,
        name != "false"@,
        name != "nil"@,
        eval_spec(env, vexpr, (fuel - 1) as nat).0 is Ok,
    ensures
        ({
            let (rv, env1) = eval_spec(env, vexpr, (fuel - 1) as nat);
            let bound = env_define(env1, name, rv->Ok_0);
            eval_spec(env, app2(DataV::Symbol("define"@), DataV::Symbol(name), vexpr), fuel)
                == (Ok::<DataV, ErrV>(DataV::Nil), bound) && eval_spec(
                bound,
                DataV::Symbol(name),
                g,
            ) == (Ok::<DataV, ErrV>(rv->Ok_0), bound)
        }),
{
    lemma_name_chars();
    reveal_with_fuel(flatten_args, 4);
    reveal_with_fuel(eval_spec, 2);
    let f = (fuel - 1) as nat;
    let (rv, env1) = eval_spec(env, vexpr, f);
    let v = rv->Ok_0;
    lemma_eval_frames(env, vexpr, f);
    assert(env1.len() == env.len());
    let tail = DataV::Pair(
        Box::new(DataV::Symbol(name)),
        Box::new(DataV::Pair(Box::new(vexpr), Box::new(DataV::Nil))),
    );
    assert(flatten_args(tail) is Some);
    let parts = flatten_args(tail)->Some_0;
    assert(parts =~= seq![DataV::Symbol(name), vexpr]);
    let bound = env_define(env1, name, v);
    assert(eval_spec(env, app2(DataV::Symbol("define"@), DataV::Symbol(name), vexpr), fuel) == (
    Ok::<DataV, ErrV>(DataV::Nil),
    bound,
    ));
    assert(bound.last() == env1.last().insert(name, v));
    assert(env_lookup(bound, name) == Some(v));
    assert(eval_spec(bound, DataV::Symbol(name), g) == (Ok::<DataV, ErrV>(v), bound));
}

/// Closure application is arity-checked: applying a lambda form to
/// argument expressions whose count differs from its parameter count
/// fails with the invalid-arguments error, and leaves the environment as
/// the argument evaluation left it.
pub proof fn lemma_apply_arity_mismatch(
    env: EnvV,
    params_list: DataV,
    body: DataV,
    args_chain: DataV,
    fuel: nat,
)
    requires
        fuel >= 2,
        param_names(params_list) is Some,
        flatten_args(args_chain) is Some,
        eval_args_spec(env, flatten_args(args_chain)->Some_0, (fuel - 1) as nat).0 is Ok,
        param_names(params_list)->Some_0.len() != eval_args_spec(
            env,
            flatten_args(args_chain)->Some_0,
            (fuel - 1) as nat,
        ).0->Ok_0.len(),
    ensures
        eval_spec(
            env,
            DataV::Pair(
                Box::new(app2(DataV::Symbol("lambda"@), params_list, body)),
                Box::new(args_chain),
            ),
            fuel,
        ) == (
        Err::<DataV, ErrV>(ErrV::InvalidArguments),
        eval_args_spec(env, flatten_args(args_chain)->Some_0, (fuel - 1) as nat).1,
        ),
{
    lemma_name_chars();
    reveal_with_fuel(flatten_args, 4);
    reveal_with_fuel(eval_spec, 2);
    let f = (fuel - 1) as nat;
    let lam = app2(DataV::Symbol("lambda"@), params_list, body);
    let lam_tail = DataV::Pair(
        Box::new(params_list),
        Box::new(DataV::Pair(Box::new(body), Box::new(DataV::Nil))),
    );
    assert(flatten_args(lam_tail) is Some);
    let lam_parts = flatten_args(lam_tail)->Some_0;
    assert(lam_parts =~= seq![params_list, body]);
    let ns = param_names(params_list)->Some_0;
    assert(eval_spec(env, lam, f) == (Ok::<DataV, ErrV>(DataV::Fn(ns, Box::new(body))), env));
}

} // verus!
