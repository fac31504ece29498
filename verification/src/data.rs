//! Runtime values, and the primitive operations over already-evaluated
//! argument values. Every primitive is proved to return exactly what its
//! spec twin in `semantics` prescribes.
use vstd::prelude::*;
use crate::{Annot, Loc};
use crate::semantics::{
    DataV, ErrV, add_spec, sub_spec, mul_spec, div_spec, rem_spec, gt_spec, ge_spec, eq_spec,
    ne_spec, lt_spec, le_spec, and_spec, or_spec, xor_spec, not_spec, shl_spec, shr_spec,
    atom_spec, car_spec, cdr_spec, cons_spec, lambda_spec, param_names,
};
use crate::interpreter::InterpreterError;

verus! {

#[derive(Debug)]
pub enum DataKind {
    Number(i32),
    Boolean(bool),
    Nil,
    Symbol(String),
    Pair(Box<Data>, Box<Data>),
    _Fn(Vec<String>, Box<Data>),
}

pub type Data = Annot<DataKind>;

impl View for DataKind {
    type V = DataV;

    open spec fn view(&self) -> DataV
        decreases self,
    {
        match self {
            DataKind::Number(n) => DataV::Number(*n),
            DataKind::Boolean(b) => DataV::Boolean(*b),
            DataKind::Nil => DataV::Nil,
            DataKind::Symbol(s) => DataV::Symbol(s@),
            DataKind::Pair(l, r) => DataV::Pair(
                Box::new((**l).value@),
                Box::new((**r).value@),
            ),
            DataKind::_Fn(params, body) => DataV::Fn(
                name_views(params@),
                Box::new((**body).value@),
            ),
        }
    }
}

impl View for Data {
    type V = DataV;

    open spec fn view(&self) -> DataV {
        self.value@
    }
}

/// The views of a value vector, in order.
pub open spec fn data_views(ds: Seq<Data>) -> Seq<DataV> {
    ds.map_values(|d: Data| d@)
}

/// The views of a name vector, in order.
pub open spec fn name_views(ns: Seq<String>) -> Seq<Seq<char>> {
    ns.map_values(|s: String| s@)
}

/// The view of a primitive's result.
pub open spec fn res_view(r: Result<Data, InterpreterError>) -> Result<DataV, ErrV> {
    match r {
        Ok(d) => Ok(d@),
        Err(e) => Err(e@),
    }
}

/// A structural copy of a name vector.
pub fn clone_names(v: &Vec<String>) -> (r: Vec<String>)
    ensures
        name_views(r@) == name_views(v@),
{
    let mut r: Vec<String> = Vec::new();
    let mut i: usize = 0;
    while i < v.len()
        invariant
            i <= v.len(),
            r@.len() == i,
            forall|j: int| 0 <= j < i ==> r@[j]@ == v@[j]@,
        decreases v.len() - i,
    {
        r.push(v[i].clone());
        i = i + 1;
    }
    proof {
        assert forall|j: int| 0 <= j < r@.len() implies name_views(r@)[j] == name_views(v@)[j] by {
            assert(name_views(r@)[j] == r@[j]@);
            assert(name_views(v@)[j] == v@[j]@);
        }
        assert(name_views(r@) =~= name_views(v@));
    }
    r
}

impl Data {
    pub fn number(n: i32, loc: Loc) -> (r: Self)
        ensures
            r@ == DataV::Number(n),
            r.loc == loc,
    {
        Data::new(DataKind::Number(n), loc)
    }

    pub fn boolean(b: bool, loc: Loc) -> (r: Self)
        ensures
            r@ == DataV::Boolean(b),
            r.loc == loc,
    {
        Data::new(DataKind::Boolean(b), loc)
    }

    pub fn nil(loc: Loc) -> (r: Self)
        ensures
            r@ == DataV::Nil,
            r.loc == loc,
    {
        Data::new(DataKind::Nil, loc)
    }

    pub fn symbol(name: String, loc: Loc) -> (r: Self)
        ensures
            r@ == DataV::Symbol(name@),
            r.loc == loc,
    {
        Data::new(DataKind::Symbol(name), loc)
    }

    pub fn pair(l: Data, r: Data, loc: Loc) -> (t: Self)
        ensures
            t@ == DataV::Pair(Box::new(l@), Box::new(r@)),
            t.loc == loc,
    {
        Data::new(DataKind::Pair(Box::new(l), Box::new(r)), loc)
    }

    pub fn _fn(args: Vec<String>, body: Data, loc: Loc) -> (r: Self)
        ensures
            r@ == DataV::Fn(name_views(args@), Box::new(body@)),
            r.loc == loc,
    {
        Data::new(DataKind::_Fn(args, Box::new(body)), loc)
    }

    /// A structural copy, spans included; the copy has the same view.
    pub fn duplicate(&self) -> (r: Data)
        ensures
            r@ == self@,
            r.loc == self.loc,
        decreases self,
    {
        match &self.value {
            DataKind::Number(n) => Data::number(*n, self.loc),
            DataKind::Boolean(b) => Data::boolean(*b, self.loc),
            DataKind::Nil => Data::nil(self.loc),
            DataKind::Symbol(s) => Data::symbol(s.clone(), self.loc),
            DataKind::Pair(l, r) => Data::pair((**l).duplicate(), (**r).duplicate(), self.loc),
            DataKind::_Fn(params, body) => Data::_fn(
                clone_names(params),
                (**body).duplicate(),
                self.loc,
            ),
        }
    }

    /// Structural equality of the underlying values, spans ignored.
    pub fn assert_eq(&self, other: &DataKind) -> (r: bool)
        ensures
            r == (self@ == other@),
    {
        kind_eq(&self.value, other)
    }

    pub(crate) fn add(args: Vec<Data>) -> (r: Result<Data, InterpreterError>)
        ensures
            res_view(r) == add_spec(data_views(args@)),
    {
        if args.len() == 2 {
            let loc = args[0].loc.merge(&args[1].loc);
            match (&args[0].value, &args[1].value) {
                (DataKind::Number(l), DataKind::Number(n)) => Ok(
                    Data::number(l.wrapping_add(*n), loc),
                ),
                _ => Err(InterpreterError::invalid_arguments(loc)),
            }
        } else {
            Err(InterpreterError::invalid_arguments(Loc(0, 1)))
        }
    }

    pub(crate) fn sub(args: Vec<Data>) -> (r: Result<Data, InterpreterError>)
        ensures
            res_view(r) == sub_spec(data_views(args@)),
    {
        if args.len() == 2 {
            let loc = args[0].loc.merge(&args[1].loc);
            match (&args[0].value, &args[1].value) {
                (DataKind::Number(l), DataKind::Number(n)) => Ok(
                    Data::number(l.wrapping_sub(*n), loc),
                ),
                _ => Err(InterpreterError::invalid_arguments(loc)),
            }
        } else {
            Err(InterpreterError::invalid_arguments(Loc(0, 1)))
        }
    }

    pub(crate) fn mul(args: Vec<Data>) -> (r: Result<Data, InterpreterError>)
        ensures
            res_view(r) == mul_spec(data_views(args@)),
    {
        if args.len() == 2 {
            let loc = args[0].loc.merge(&args[1].loc);
            match (&args[0].value, &args[1].value) {
                (DataKind::Number(l), DataKind::Number(n)) => Ok(
                    Data::number(l.wrapping_mul(*n), loc),
                ),
                _ => Err(InterpreterError::invalid_arguments(loc)),
            }
        } else {
            Err(InterpreterError::invalid_arguments(Loc(0, 1)))
        }
    }

    pub(crate) fn div(args: Vec<Data>) -> (r: Result<Data, InterpreterError>)
        ensures
            res_view(r) == div_spec(data_views(args@)),
    {
        if args.len() == 2 {
            let loc = args[0].loc.merge(&args[1].loc);
            match (&args[0].value, &args[1].value) {
                (DataKind::Number(l), DataKind::Number(n)) => {
                    if *n == 0 {
                        Err(InterpreterError::division_by_zero(loc))
                    } else {
                        match l.checked_div(*n) {
                            Some(q) => Ok(Data::number(q, loc)),
                            None => Ok(Data::number(i32::MIN, loc)),
                        }
                    }
                },
                _ => Err(InterpreterError::invalid_arguments(loc)),
            }
        } else {
            Err(InterpreterError::invalid_arguments(Loc(0, 1)))
        }
    }

    pub(crate) fn rem(args: Vec<Data>) -> (r: Result<Data, InterpreterError>)
        ensures
            res_view(r) == rem_spec(data_views(args@)),
    {
        if args.len() == 2 {
            let loc = args[0].loc.merge(&args[1].loc);
            match (&args[0].value, &args[1].value) {
                (DataKind::Number(l), DataKind::Number(n)) => {
                    if *n == 0 {
                        Err(InterpreterError::division_by_zero(loc))
                    } else {
                        match l.checked_rem(*n) {
                            Some(q) => Ok(Data::number(q, loc)),
                            None => Ok(Data::number(0, loc)),
                        }
                    }
                },
                _ => Err(InterpreterError::invalid_arguments(loc)),
            }
        } else {
            Err(InterpreterError::invalid_arguments(Loc(0, 1)))
        }
    }

    pub(crate) fn gt(args: Vec<Data>) -> (r: Result<Data, InterpreterError>)
        ensures
            res_view(r) == gt_spec(data_views(args@)),
    {
        if args.len() == 2 {
            let loc = args[0].loc.merge(&args[1].loc);
            match (&args[0].value, &args[1].value) {
                (DataKind::Number(l), DataKind::Number(n)) => Ok(Data::boolean(*l > *n, loc)),
                _ => Err(InterpreterError::invalid_arguments(loc)),
            }
        } else {
            Err(InterpreterError::invalid_arguments(Loc(0, 1)))
        }
    }

    pub(crate) fn ge(args: Vec<Data>) -> (r: Result<Data, InterpreterError>)
        ensures
            res_view(r) == ge_spec(data_views(args@)),
    {
        if args.len() == 2 {
            let loc = args[0].loc.merge(&args[1].loc);
            match (&args[0].value, &args[1].value) {
                (DataKind::Number(l), DataKind::Number(n)) => Ok(Data::boolean(*l >= *n, loc)),
                _ => Err(InterpreterError::invalid_arguments(loc)),
            }
        } else {
            Err(InterpreterError::invalid_arguments(Loc(0, 1)))
        }
    }

    pub(crate) fn lt(args: Vec<Data>) -> (r: Result<Data, InterpreterError>)
        ensures
            res_view(r) == lt_spec(data_views(args@)),
    {
        if args.len() == 2 {
            let loc = args[0].loc.merge(&args[1].loc);
            match (&args[0].value, &args[1].value) {
                (DataKind::Number(l), DataKind::Number(n)) => Ok(Data::boolean(*l < *n, loc)),
                _ => Err(InterpreterError::invalid_arguments(loc)),
            }
        } else {
            Err(InterpreterError::invalid_arguments(Loc(0, 1)))
        }
    }

    pub(crate) fn le(args: Vec<Data>) -> (r: Result<Data, InterpreterError>)
        ensures
            res_view(r) == le_spec(data_views(args@)),
    {
        if args.len() == 2 {
            let loc = args[0].loc.merge(&args[1].loc);
            match (&args[0].value, &args[1].value) {
                (DataKind::Number(l), DataKind::Number(n)) => Ok(Data::boolean(*l < *n || *l == *n, loc)),
                _ => Err(InterpreterError::invalid_arguments(loc)),
            }
        } else {
            Err(InterpreterError::invalid_arguments(Loc(0, 1)))
        }
    }

    pub(crate) fn eq(args: Vec<Data>) -> (r: Result<Data, InterpreterError>)
        ensures
            res_view(r) == eq_spec(data_views(args@)),
    {
        if args.len() == 2 {
            let loc = args[0].loc.merge(&args[1].loc);
            match (&args[0].value, &args[1].value) {
                (DataKind::Number(l), DataKind::Number(n)) => Ok(Data::boolean(*l == *n, loc)),
                (DataKind::Boolean(l), DataKind::Boolean(n)) => Ok(Data::boolean(*l == *n, loc)),
                (DataKind::Nil, DataKind::Nil) => Ok(Data::boolean(true, loc)),
                (DataKind::Nil, _) => Ok(Data::boolean(false, loc)),
                (_, DataKind::Nil) => Ok(Data::boolean(false, loc)),
                _ => Err(InterpreterError::invalid_arguments(loc)),
            }
        } else {
            Err(InterpreterError::invalid_arguments(Loc(0, 1)))
        }
    }

    pub(crate) fn ne(args: Vec<Data>) -> (r: Result<Data, InterpreterError>)
        ensures
            res_view(r) == ne_spec(data_views(args@)),
    {
        if args.len() == 2 {
            let loc = args[0].loc.merge(&args[1].loc);
            match (&args[0].value, &args[1].value) {
                (DataKind::Number(l), DataKind::Number(n)) => Ok(Data::boolean(*l != *n, loc)),
                (DataKind::Boolean(l), DataKind::Boolean(n)) => Ok(Data::boolean(*l != *n, loc)),
                (DataKind::Nil, DataKind::Nil) => Ok(Data::boolean(false, loc)),
                (DataKind::Nil, _) => Ok(Data::boolean(true, loc)),
                (_, DataKind::Nil) => Ok(Data::boolean(true, loc)),
                _ => Err(InterpreterError::invalid_arguments(loc)),
            }
        } else {
            Err(InterpreterError::invalid_arguments(Loc(0, 1)))
        }
    }

    pub(crate) fn and(args: Vec<Data>) -> (r: Result<Data, InterpreterError>)
        ensures
            res_view(r) == and_spec(data_views(args@)),
    {
        if args.len() == 2 {
            let loc = args[0].loc.merge(&args[1].loc);
            match (&args[0].value, &args[1].value) {
                (DataKind::Number(l), DataKind::Number(n)) => Ok(Data::number(*l & *n, loc)),
                (DataKind::Boolean(l), DataKind::Boolean(n)) => Ok(Data::boolean(*l && *n, loc)),
                _ => Err(InterpreterError::invalid_arguments(loc)),
            }
        } else {
            Err(InterpreterError::invalid_arguments(Loc(0, 1)))
        }
    }

    pub(crate) fn or(args: Vec<Data>) -> (r: Result<Data, InterpreterError>)
        ensures
            res_view(r) == or_spec(data_views(args@)),
    {
        if args.len() == 2 {
            let loc = args[0].loc.merge(&args[1].loc);
            match (&args[0].value, &args[1].value) {
                (DataKind::Number(l), DataKind::Number(n)) => Ok(Data::number(*l | *n, loc)),
                (DataKind::Boolean(l), DataKind::Boolean(n)) => Ok(Data::boolean(*l || *n, loc)),
                _ => Err(InterpreterError::invalid_arguments(loc)),
            }
        } else {
            Err(InterpreterError::invalid_arguments(Loc(0, 1)))
        }
    }

    pub(crate) fn xor(args: Vec<Data>) -> (r: Result<Data, InterpreterError>)
        ensures
            res_view(r) == xor_spec(data_views(args@)),
    {
        if args.len() == 2 {
            let loc = args[0].loc.merge(&args[1].loc);
            match (&args[0].value, &args[1].value) {
                (DataKind::Number(l), DataKind::Number(n)) => Ok(Data::number(*l ^ *n, loc)),
                (DataKind::Boolean(l), DataKind::Boolean(n)) => Ok(Data::boolean(*l != *n, loc)),
                _ => Err(InterpreterError::invalid_arguments(loc)),
            }
        } else {
            Err(InterpreterError::invalid_arguments(Loc(0, 1)))
        }
    }

    pub(crate) fn not(args: Vec<Data>) -> (r: Result<Data, InterpreterError>)
        ensures
            res_view(r) == not_spec(data_views(args@)),
    {
        if args.len() == 1 {
            let loc = args[0].loc;
            match &args[0].value {
                DataKind::Number(n) => Ok(Data::number(!*n, loc)),
                DataKind::Boolean(b) => Ok(Data::boolean(!*b, loc)),
                _ => Err(InterpreterError::invalid_arguments(loc)),
            }
        } else {
            Err(InterpreterError::invalid_arguments(Loc(0, 1)))
        }
    }

    pub(crate) fn shl(args: Vec<Data>) -> (r: Result<Data, InterpreterError>)
        ensures
            res_view(r) == shl_spec(data_views(args@)),
    {
        if args.len() == 2 {
            let loc = args[0].loc.merge(&args[1].loc);
            match (&args[0].value, &args[1].value) {
                (DataKind::Number(l), DataKind::Number(n)) => Ok(
                    Data::number(l.wrapping_shl(*n as u32), loc),
                ),
                _ => Err(InterpreterError::invalid_arguments(loc)),
            }
        } else {
            Err(InterpreterError::invalid_arguments(Loc(0, 1)))
        }
    }

    pub(crate) fn shr(args: Vec<Data>) -> (r: Result<Data, InterpreterError>)
        ensures
            res_view(r) == shr_spec(data_views(args@)),
    {
        if args.len() == 2 {
            let loc = args[0].loc.merge(&args[1].loc);
            match (&args[0].value, &args[1].value) {
                (DataKind::Number(l), DataKind::Number(n)) => Ok(
                    Data::number(l.wrapping_shr(*n as u32), loc),
                ),
                _ => Err(InterpreterError::invalid_arguments(loc)),
            }
        } else {
            Err(InterpreterError::invalid_arguments(Loc(0, 1)))
        }
    }

    pub(crate) fn atom(args: Vec<Data>) -> (r: Result<Data, InterpreterError>)
        ensures
            res_view(r) == atom_spec(data_views(args@)),
    {
        if args.len() == 1 {
            let loc = args[0].loc;
            match &args[0].value {
                DataKind::Pair(_, _) => Ok(Data::boolean(false, loc)),
                DataKind::_Fn(_, _) => Ok(Data::boolean(false, loc)),
                _ => Ok(Data::boolean(true, loc)),
            }
        } else {
            Err(InterpreterError::invalid_arguments(Loc(0, 1)))
        }
    }

    pub(crate) fn car(args: Vec<Data>) -> (r: Result<Data, InterpreterError>)
        ensures
            res_view(r) == car_spec(data_views(args@)),
    {
        if args.len() == 1 {
            let loc = args[0].loc;
            match &args[0].value {
                DataKind::Pair(l, _) => Ok((**l).duplicate()),
                _ => Err(InterpreterError::invalid_arguments(loc)),
            }
        } else {
            Err(InterpreterError::invalid_arguments(Loc(0, 1)))
        }
    }

    pub(crate) fn cdr(args: Vec<Data>) -> (r: Result<Data, InterpreterError>)
        ensures
            res_view(r) == cdr_spec(data_views(args@)),
    {
        if args.len() == 1 {
            let loc = args[0].loc;
            match &args[0].value {
                DataKind::Pair(_, t) => Ok((**t).duplicate()),
                _ => Err(InterpreterError::invalid_arguments(loc)),
            }
        } else {
            Err(InterpreterError::invalid_arguments(Loc(0, 1)))
        }
    }

    pub(crate) fn cons(args: Vec<Data>) -> (r: Result<Data, InterpreterError>)
        ensures
            res_view(r) == cons_spec(data_views(args@)),
    {
        if args.len() == 2 {
            let loc = args[0].loc.merge(&args[1].loc);
            Ok(Data::pair(args[0].duplicate(), args[1].duplicate(), loc))
        } else {
            Err(InterpreterError::invalid_arguments(Loc(0, 1)))
        }
    }

    /// Build a closure from a parameter list and a body expression.
    pub(crate) fn lambda(args: Vec<Data>) -> (r: Result<Data, InterpreterError>)
        ensures
            res_view(r) == lambda_spec(data_views(args@)),
    {
        if args.len() == 2 {
            let loc = args[0].loc.merge(&args[1].loc);
            match collect_params(&args[0]) {
                Some(names) => Ok(Data::_fn(names, args[1].duplicate(), loc)),
                None => Err(InterpreterError::invalid_arguments(loc)),
            }
        } else {
            Err(InterpreterError::invalid_arguments(Loc(0, 1)))
        }
    }
}

/// The parameter names of a lambda's parameter list: a proper list of
/// symbols, or nothing.
fn collect_params(list: &Data) -> (r: Option<Vec<String>>)
    ensures
        match r {
            Some(ns) => param_names(list@) == Some(name_views(ns@)),
            None => param_names(list@) is None,
        },
    decreases list,
{
    match &list.value {
        DataKind::Nil => {
            let names: Vec<String> = Vec::new();
            proof {
                assert(name_views(names@) =~= Seq::<Seq<char>>::empty());
                assert(param_names(list@) == Some(name_views(names@)));
            }
            Some(names)
        },
        DataKind::Pair(l, t) => match &(**l).value {
            DataKind::Symbol(s) => match collect_params(&**t) {
                Some(mut rest) => {
                    let ghost rest0 = rest@;
                    rest.insert(0, s.clone());
                    proof {
                        let tail_names = param_names((**t)@)->Some_0;
                        assert(name_views(rest0) == tail_names);
                        assert(rest@ == rest0.insert(0, rest@[0]));
                        assert(rest@[0]@ == s@);
                        assert forall|j: int| 0 <= j < rest@.len() implies name_views(rest@)[j]
                            == (seq![s@] + tail_names)[j] by {
                            assert(name_views(rest@)[j] == rest@[j]@);
                            if j > 0 {
                                assert(rest@[j] == rest0[j - 1]);
                                assert(name_views(rest0)[j - 1] == rest0[j - 1]@);
                            }
                        }
                        assert(name_views(rest@) =~= seq![s@] + tail_names);
                        assert(list@ == DataV::Pair(Box::new((**l)@), Box::new((**t)@)));
                        assert((**l)@ == DataV::Symbol(s@));
                        assert(param_names((**t)@) == Some(tail_names));
                        assert(param_names(list@) == Some(seq![s@] + tail_names));
                        assert(param_names(list@) == Some(name_views(rest@)));
                    }
                    Some(rest)
                },
                None => {
                    proof {
                        assert(param_names(list@) is None);
                    }
                    None
                },
            },
            _ => {
                proof {
                    assert(param_names(list@) is None);
                }
                None
            },
        },
        _ => {
            proof {
                assert(param_names(list@) is None);
            }
            None
        },
    }
}

/// Structural equality of value kinds, spans ignored.
pub(crate) fn kind_eq(a: &DataKind, b: &DataKind) -> (r: bool)
    ensures
        r == (a@ == b@),
    decreases a,
{
    match (a, b) {
        (DataKind::Number(x), DataKind::Number(y)) => *x == *y,
        (DataKind::Boolean(x), DataKind::Boolean(y)) => *x == *y,
        (DataKind::Nil, DataKind::Nil) => true,
        (DataKind::Symbol(x), DataKind::Symbol(y)) => *x == *y,
        (DataKind::Pair(l1, r1), DataKind::Pair(l2, r2)) => {
            kind_eq(&(**l1).value, &(**l2).value) && kind_eq(&(**r1).value, &(**r2).value)
        },
        (DataKind::_Fn(p1, b1), DataKind::_Fn(p2, b2)) => {
            names_eq(p1, p2) && kind_eq(&(**b1).value, &(**b2).value)
        },
        _ => false,
    }
}

/// Equality of name vectors.
fn names_eq(a: &Vec<String>, b: &Vec<String>) -> (r: bool)
    ensures
        r == (name_views(a@) == name_views(b@)),
{
    if a.len() != b.len() {
        proof {
            assert(name_views(a@).len() == a@.len());
            assert(name_views(b@).len() == b@.len());
        }
        return false;
    }
    let mut i: usize = 0;
    while i < a.len()
        invariant
            a@.len() == b@.len(),
            i <= a.len(),
            forall|j: int| 0 <= j < i ==> name_views(a@)[j] == name_views(b@)[j],
        decreases a.len() - i,
    {
        if !(a[i] == b[i]) {
            proof {
                assert(name_views(a@)[i as int] == a@[i as int]@);
                assert(name_views(b@)[i as int] == b@[i as int]@);
            }
            return false;
        }
        i = i + 1;
    }
    proof {
        assert(name_views(a@) =~= name_views(b@));
    }
    true
}

} // verus!
