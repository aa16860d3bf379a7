//! The fuel-indexed mathematical semantics of the language.
//!
//! Evaluation of an arbitrary tree may diverge (an induction list queried at
//! a negative index iterates until a fixed point that may never come), so the
//! semantics is indexed by a fuel bound: `None` means the bound was exhausted,
//! `Some(r)` is the definitive outcome. Every nested evaluation step costs
//! one unit of fuel, so the semantics is total, and the executable evaluator
//! is proved to return exactly these functions' values.
use vstd::prelude::*;

use crate::errors::MismatchKind;
use crate::errors::RuntimeError;
use crate::parsetree::ParseTree;
use crate::value::ListView;
use crate::value::Value;
use crate::value::ValueView;

verus! {

/// Absolute value of an `i64` with the host's wrapping behaviour: the
/// absolute value of `i64::MIN` is `i64::MIN` itself.
pub open spec fn abs_wrap(n: i64) -> i64 {
    if n == i64::MIN {
        i64::MIN
    } else if n < 0 {
        (-n) as i64
    } else {
        n
    }
}

/// The length of a list: the element count of an exact list, the source's
/// length for a map, the sum for a concatenation, and an error for an
/// induction list (always infinite) or for a count that does not fit in
/// an `i64`. Length never evaluates captured sub-trees, so it needs no fuel.
pub open spec fn spec_length(l: ListView) -> Result<i64, RuntimeError>
    decreases l,
{
    match l {
        ListView::Exact(s) => {
            if s.len() > i64::MAX {
                Err(RuntimeError::OutOfBounds)
            } else {
                Ok(s.len() as i64)
            }
        },
        ListView::Induction(_, _) => Err(RuntimeError::ResolvingInfiniteList),
        ListView::Mapping(_, src) => spec_length(*src),
        ListView::Concat(a, b) => match spec_length(*a) {
            Err(e) => Err(e),
            Ok(la) => match spec_length(*b) {
                Err(e) => Err(e),
                Ok(lb) => {
                    if la + lb > i64::MAX {
                        Err(RuntimeError::OutOfBounds)
                    } else {
                        Ok((la + lb) as i64)
                    }
                },
            },
        },
    }
}

/// A successfully computed length is never negative.
pub broadcast proof fn lemma_length_nonneg(l: ListView)
    ensures
        (#[trigger] spec_length(l)) matches Ok(n) ==> n >= 0,
    decreases l,
{
    match l {
        ListView::Mapping(_, src) => lemma_length_nonneg(*src),
        ListView::Concat(a, b) => {
            lemma_length_nonneg(*a);
            lemma_length_nonneg(*b);
        },
        _ => {},
    }
}

/// Evaluation of a tree against an input value.
pub open spec fn spec_eval(t: ParseTree, input: ValueView, fuel: nat) -> Option<
    Result<ValueView, RuntimeError>,
>
    decreases fuel, 0nat, 0nat,
{
    if fuel == 0 {
        None
    } else {
        let f = (fuel - 1) as nat;
        match t {
            ParseTree::Number { n, line } => Some(Ok(ValueView::Number(n))),
            ParseTree::Input { line } => Some(Ok(input)),
            ParseTree::EmptyList { line } => Some(
                Ok(ValueView::List(ListView::Exact(Seq::empty()))),
            ),
            ParseTree::Length { arg, line } => match spec_eval(*arg, input, f) {
                None => None,
                Some(Err(e)) => Some(Err(e)),
                Some(Ok(ValueView::Number(n))) => Some(Ok(ValueView::Number(abs_wrap(n)))),
                Some(Ok(ValueView::List(l))) => match spec_length(l) {
                    Ok(len) => Some(Ok(ValueView::Number(len))),
                    Err(e) => Some(Err(e)),
                },
            },
            ParseTree::Encapsulate { arg, line } => match spec_eval(*arg, input, f) {
                None => None,
                Some(Err(e)) => Some(Err(e)),
                Some(Ok(v)) => Some(Ok(ValueView::List(ListView::Exact(seq![v])))),
            },
            ParseTree::Addition { arg1, arg2, line } => match spec_eval(*arg1, input, f) {
                None => None,
                Some(Err(e)) => Some(Err(e)),
                Some(Ok(v1)) => match spec_eval(*arg2, input, f) {
                    None => None,
                    Some(Err(e)) => Some(Err(e)),
                    Some(Ok(v2)) => match (v1, v2) {
                        (ValueView::Number(n1), ValueView::Number(n2)) => Some(
                            Ok(ValueView::Number(n1.wrapping_add(n2))),
                        ),
                        (ValueView::List(l1), ValueView::List(l2)) => Some(
                            Ok(ValueView::List(ListView::Concat(Box::new(l1), Box::new(l2)))),
                        ),
                        _ => Some(
                            Err(RuntimeError::MismatchedTypes(MismatchKind::AddNumberAndList, line)),
                        ),
                    },
                },
            },
            ParseTree::IndexSubtraction { arg1, arg2, line } => match spec_eval(*arg1, input, f) {
                None => None,
                Some(Err(e)) => Some(Err(e)),
                Some(Ok(v1)) => match spec_eval(*arg2, input, f) {
                    None => None,
                    Some(Err(e)) => Some(Err(e)),
                    Some(Ok(v2)) => match (v1, v2) {
                        (ValueView::Number(n1), ValueView::Number(n2)) => Some(
                            Ok(ValueView::Number(n1.wrapping_sub(n2))),
                        ),
                        (ValueView::List(l), ValueView::Number(n)) => spec_index(l, n as int, f),
                        _ => Some(
                            Err(
                                RuntimeError::MismatchedTypes(
                                    MismatchKind::SubtractOrIndexWithList,
                                    line,
                                ),
                            ),
                        ),
                    },
                },
            },
            ParseTree::Induction { arg1, arg2, line } => match spec_eval(*arg1, input, f) {
                None => None,
                Some(Err(e)) => Some(Err(e)),
                Some(Ok(v)) => Some(
                    Ok(ValueView::List(ListView::Induction(*arg2, Box::new(v)))),
                ),
            },
            ParseTree::Mapping { arg1, arg2, line } => match spec_eval(*arg1, input, f) {
                None => None,
                Some(Err(e)) => Some(Err(e)),
                Some(Ok(ValueView::List(l))) => Some(
                    Ok(ValueView::List(ListView::Mapping(*arg2, Box::new(l)))),
                ),
                Some(Ok(ValueView::Number(_))) => Some(
                    Err(RuntimeError::MismatchedTypes(MismatchKind::MapNumber, line)),
                ),
            },
        }
    }
}

/// Random access into a list. Negative indices address finite lists from the
/// end; on an induction list a negative index asks for the first fixed point
/// of the step function.
pub open spec fn spec_index(l: ListView, i: int, fuel: nat) -> Option<
    Result<ValueView, RuntimeError>,
>
    decreases fuel, 0nat, 0nat,
{
    if fuel == 0 {
        None
    } else {
        let f = (fuel - 1) as nat;
        match l {
            ListView::Exact(s) => {
                if s.len() > i64::MAX {
                    Some(Err(RuntimeError::OutOfBounds))
                } else {
                    let len = s.len() as int;
                    if i >= len || i < -len {
                        Some(Err(RuntimeError::OutOfBounds))
                    } else if i >= 0 {
                        Some(Ok(s[i]))
                    } else {
                        Some(Ok(s[len + i]))
                    }
                }
            },
            ListView::Induction(ft, init) => {
                if i >= 0 {
                    spec_induct_from(ft, *init, i as nat, f)
                } else {
                    spec_fix_from(ft, *init, f)
                }
            },
            ListView::Mapping(ft, src) => match spec_length(*src) {
                Err(e) => Some(Err(e)),
                Ok(len) => {
                    if i >= len || i < -len {
                        Some(Err(RuntimeError::OutOfBounds))
                    } else {
                        let ti = if i >= 0 {
                            i
                        } else {
                            len + i
                        };
                        match spec_index(*src, ti, f) {
                            None => None,
                            Some(Err(e)) => Some(Err(e)),
                            Some(Ok(v)) => spec_eval(ft, v, f),
                        }
                    }
                },
            },
            ListView::Concat(a, b) => match spec_length(*a) {
                Err(_) => spec_index(*a, i, f),
                Ok(la) => {
                    if i >= 0 {
                        if i < la {
                            spec_index(*a, i, f)
                        } else {
                            spec_index(*b, i - la, f)
                        }
                    } else {
                        match spec_length(ListView::Concat(a, b)) {
                            Err(e) => Some(Err(e)),
                            Ok(n) => {
                                if i < -n {
                                    Some(Err(RuntimeError::OutOfBounds))
                                } else if n + i < la {
                                    spec_index(*a, n + i, f)
                                } else {
                                    spec_index(*b, n + i - la, f)
                                }
                            },
                        }
                    }
                },
            },
        }
    }
}

/// The `n`-th element of the induction sequence whose current element is
/// `cur`, computing each further element with the given fuel.
pub open spec fn spec_induct_from(ft: ParseTree, cur: ValueView, n: nat, fuel: nat) -> Option<
    Result<ValueView, RuntimeError>,
>
    decreases fuel, 1nat, n,
{
    if n == 0 {
        Some(Ok(cur))
    } else if fuel == 0 {
        None
    } else {
        match spec_eval(ft, cur, fuel) {
            None => None,
            Some(Err(e)) => Some(Err(e)),
            Some(Ok(next)) => spec_induct_from(ft, next, (n - 1) as nat, fuel),
        }
    }
}

/// The first fixed point of the step function reached from `cur`: the first
/// element `x` of the iteration with `step(x) == x` under structural value
/// equality. Each iteration costs fuel, so a sequence without a reachable
/// fixed point exhausts any bound.
pub open spec fn spec_fix_from(ft: ParseTree, cur: ValueView, fuel: nat) -> Option<
    Result<ValueView, RuntimeError>,
>
    decreases fuel, 2nat, 0nat,
{
    if fuel == 0 {
        None
    } else {
        let f = (fuel - 1) as nat;
        match spec_eval(ft, cur, f) {
            None => None,
            Some(Err(e)) => Some(Err(e)),
            Some(Ok(next)) => match spec_eq(cur, next, f) {
                None => None,
                Some(true) => Some(Ok(next)),
                Some(false) => spec_fix_from(ft, next, f),
            },
        }
    }
}

/// Structural value equality, defined only where it terminates: numbers by
/// integer equality, finite lists element-wise; a number never equals a list,
/// and a comparison whose length or element lookup fails (an infinite list)
/// is `false`.
pub open spec fn spec_eq(a: ValueView, b: ValueView, fuel: nat) -> Option<bool>
    decreases fuel, 2nat, 0nat,
{
    if fuel == 0 {
        None
    } else {
        match (a, b) {
            (ValueView::Number(n1), ValueView::Number(n2)) => Some(n1 == n2),
            (ValueView::List(l1), ValueView::List(l2)) => match spec_list_eq(l1, l2, fuel) {
                None => None,
                Some(Ok(r)) => Some(r),
                Some(Err(_)) => Some(false),
            },
            _ => Some(false),
        }
    }
}

/// Element-wise list equality; propagates the errors that `spec_eq` then
/// turns into `false`.
pub open spec fn spec_list_eq(l1: ListView, l2: ListView, fuel: nat) -> Option<
    Result<bool, RuntimeError>,
>
    decreases fuel, 1nat, 0nat,
{
    match spec_length(l1) {
        Err(e) => Some(Err(e)),
        Ok(n1) => match spec_length(l2) {
            Err(e) => Some(Err(e)),
            Ok(n2) => {
                if n1 != n2 {
                    Some(Ok(false))
                } else {
                    spec_eq_elems(l1, l2, 0, n1 as int, fuel)
                }
            },
        },
    }
}

/// Compares elements `idx`, `idx + 1`, ... of two lists of equal length `len`.
pub open spec fn spec_eq_elems(l1: ListView, l2: ListView, idx: int, len: int, fuel: nat) -> Option<
    Result<bool, RuntimeError>,
>
    decreases fuel, 0nat, (len - idx),
{
    if idx >= len {
        Some(Ok(true))
    } else if fuel == 0 {
        None
    } else {
        let f = (fuel - 1) as nat;
        match spec_index(l1, idx, f) {
            None => None,
            Some(Err(e)) => Some(Err(e)),
            Some(Ok(v1)) => match spec_index(l2, idx, f) {
                None => None,
                Some(Err(e)) => Some(Err(e)),
                Some(Ok(v2)) => match spec_eq(v1, v2, f) {
                    None => None,
                    Some(false) => Some(Ok(false)),
                    Some(true) => spec_eq_elems(l1, l2, idx + 1, len, fuel),
                },
            },
        }
    }
}

/// The view of an executable evaluation outcome, for stating that executable
/// code returns exactly what the spec-level semantics says.
pub open spec fn outcome_view(r: Option<Result<Value, RuntimeError>>) -> Option<
    Result<ValueView, RuntimeError>,
> {
    match r {
        None => None,
        Some(Err(e)) => Some(Err(e)),
        Some(Ok(v)) => Some(Ok(v@)),
    }
}

} // verus!

verus! {

/// Eagerly computing every element of a value, as done before printing:
/// `Ok` when every element (recursively) resolves, the first error otherwise,
/// and always an error on an infinite list.
pub open spec fn spec_force(v: ValueView, fuel: nat) -> Option<Result<(), RuntimeError>>
    decreases fuel, 2nat, 0nat,
{
    if fuel == 0 {
        None
    } else {
        match v {
            ValueView::Number(_) => Some(Ok(())),
            ValueView::List(l) => spec_force_list(l, (fuel - 1) as nat),
        }
    }
}

/// Forces every element of a list.
pub open spec fn spec_force_list(l: ListView, fuel: nat) -> Option<Result<(), RuntimeError>>
    decreases fuel, 1nat, 0nat,
{
    if fuel == 0 {
        None
    } else {
        let f = (fuel - 1) as nat;
        match l {
            ListView::Exact(s) => spec_force_elems(s, 0, fuel),
            ListView::Induction(_, _) => Some(Err(RuntimeError::ResolvingInfiniteList)),
            ListView::Mapping(ft, src) => match spec_length(*src) {
                Err(e) => Some(Err(e)),
                Ok(len) => match spec_force_list(*src, f) {
                    None => None,
                    Some(Err(e)) => Some(Err(e)),
                    Some(Ok(u)) => spec_force_map_elems(ft, *src, 0, len as int, fuel),
                },
            },
            ListView::Concat(a, b) => match spec_force_list(*a, f) {
                None => None,
                Some(Err(e)) => Some(Err(e)),
                Some(Ok(u)) => spec_force_list(*b, f),
            },
        }
    }
}

/// Forces elements `idx`, `idx + 1`, ... of a materialized sequence.
pub open spec fn spec_force_elems(s: Seq<ValueView>, idx: int, fuel: nat) -> Option<
    Result<(), RuntimeError>,
>
    decreases fuel, 0nat, (s.len() - idx),
{
    if idx >= s.len() {
        Some(Ok(()))
    } else if fuel == 0 {
        None
    } else {
        match spec_force(s[idx], (fuel - 1) as nat) {
            None => None,
            Some(Err(e)) => Some(Err(e)),
            Some(Ok(u)) => spec_force_elems(s, idx + 1, fuel),
        }
    }
}

/// Computes (and discards) elements `idx`, ... of a map list of length `len`.
pub open spec fn spec_force_map_elems(ft: ParseTree, src: ListView, idx: int, len: int, fuel: nat) -> Option<
    Result<(), RuntimeError>,
>
    decreases fuel, 0nat, (len - idx),
{
    if idx >= len {
        Some(Ok(()))
    } else if fuel == 0 {
        None
    } else {
        let f = (fuel - 1) as nat;
        match spec_index(src, idx, f) {
            None => None,
            Some(Err(e)) => Some(Err(e)),
            Some(Ok(v)) => match spec_eval(ft, v, f) {
                None => None,
                Some(Err(e)) => Some(Err(e)),
                Some(Ok(u)) => spec_force_map_elems(ft, src, idx + 1, len, fuel),
            },
        }
    }
}

} // verus!
