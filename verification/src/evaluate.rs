//! The tree-walking evaluator.
//!
//! This is the only place where sub-trees become runtime computations: lazy
//! lists capture the sub-trees they need and re-enter the evaluator when an
//! element is demanded. Since a program may diverge, the evaluator takes a
//! fuel bound and is proved to return exactly the value of the fuel-indexed
//! semantics `spec_eval`.
use vstd::prelude::*;

use crate::errors::MismatchKind;
use crate::errors::RuntimeError;
use crate::parsetree::ParseTree;
use crate::semantics::outcome_view;
use crate::semantics::spec_eval;
use crate::value::ExactList;
use crate::value::LazyConcatList;
use crate::value::LazyInductionList;
use crate::value::LazyMapList;
use crate::value::List;
use crate::value::Value;

verus! {

/// Evaluates `expression` against `input`, spending at most `fuel` nested
/// evaluation steps. `None` means the bound was exhausted; any `Some` outcome
/// is the definitive result of the program.
pub fn evaluate(expression: &ParseTree, input: &Value, fuel: u64) -> (r: Option<
    Result<Value, RuntimeError>,
>)
    ensures
        outcome_view(r) == spec_eval(*expression, input@, fuel as nat),
    decreases fuel, 4int,
{
    if fuel == 0 {
        return None;
    }
    let f = fuel - 1;
    match expression {
        ParseTree::Number { n, line } => Some(Ok(Value::Number(*n))),
        ParseTree::Input { line } => Some(Ok(input.duplicate())),
        ParseTree::EmptyList { line } => {
            let items: Vec<Value> = Vec::new();
            proof {
                assert(crate::value::vals_view(items@) =~= Seq::<crate::value::ValueView>::empty());
            }
            Some(Ok(Value::List(List::Exact(ExactList::new(items)))))
        },
        ParseTree::Length { arg, line } => match evaluate(arg, input, f) {
            None => None,
            Some(Err(e)) => Some(Err(e)),
            Some(Ok(Value::Number(n))) => {
                let a = if n == i64::MIN {
                    i64::MIN
                } else if n < 0 {
                    -n
                } else {
                    n
                };
                Some(Ok(Value::Number(a)))
            },
            Some(Ok(Value::List(l))) => match l.length() {
                Ok(len) => Some(Ok(Value::Number(len))),
                Err(e) => Some(Err(e)),
            },
        },
        ParseTree::Encapsulate { arg, line } => match evaluate(arg, input, f) {
            None => None,
            Some(Err(e)) => Some(Err(e)),
            Some(Ok(v)) => {
                let ghost vv = v@;
                let mut items: Vec<Value> = Vec::new();
                items.push(v);
                proof {
                    assert(items@.drop_last() =~= Seq::<Value>::empty());
                    assert(crate::value::vals_view(Seq::<Value>::empty())
                        =~= Seq::<crate::value::ValueView>::empty());
                    assert(items@.last() == items@[0]);
                    assert(crate::value::vals_view(items@) =~= seq![vv]);
                }
                Some(Ok(Value::List(List::Exact(ExactList::new(items)))))
            },
        },
        ParseTree::Addition { arg1, arg2, line } => match evaluate(arg1, input, f) {
            None => None,
            Some(Err(e)) => Some(Err(e)),
            Some(Ok(v1)) => match evaluate(arg2, input, f) {
                None => None,
                Some(Err(e)) => Some(Err(e)),
                Some(Ok(v2)) => match (v1, v2) {
                    (Value::Number(n1), Value::Number(n2)) => Some(
                        Ok(Value::Number(n1.wrapping_add(n2))),
                    ),
                    (Value::List(l1), Value::List(l2)) => Some(
                        Ok(Value::List(List::Concat(Box::new(LazyConcatList::new(l1, l2))))),
                    ),
                    _ => Some(
                        Err(RuntimeError::MismatchedTypes(MismatchKind::AddNumberAndList, *line)),
                    ),
                },
            },
        },
        ParseTree::IndexSubtraction { arg1, arg2, line } => match evaluate(arg1, input, f) {
            None => None,
            Some(Err(e)) => Some(Err(e)),
            Some(Ok(v1)) => match evaluate(arg2, input, f) {
                None => None,
                Some(Err(e)) => Some(Err(e)),
                Some(Ok(v2)) => match (v1, v2) {
                    (Value::Number(n1), Value::Number(n2)) => Some(
                        Ok(Value::Number(n1.wrapping_sub(n2))),
                    ),
                    (Value::List(l), Value::Number(n)) => l.index(n, f),
                    _ => Some(
                        Err(
                            RuntimeError::MismatchedTypes(
                                MismatchKind::SubtractOrIndexWithList,
                                *line,
                            ),
                        ),
                    ),
                },
            },
        },
        ParseTree::Induction { arg1, arg2, line } => match evaluate(arg1, input, f) {
            None => None,
            Some(Err(e)) => Some(Err(e)),
            Some(Ok(v)) => Some(
                Ok(
                    Value::List(
                        List::Induction(
                            Box::new(LazyInductionList::new((**arg2).duplicate(), v)),
                        ),
                    ),
                ),
            ),
        },
        ParseTree::Mapping { arg1, arg2, line } => match evaluate(arg1, input, f) {
            None => None,
            Some(Err(e)) => Some(Err(e)),
            Some(Ok(Value::List(l))) => Some(
                Ok(
                    Value::List(
                        List::Mapping(Box::new(LazyMapList::new((**arg2).duplicate(), l))),
                    ),
                ),
            ),
            Some(Ok(Value::Number(_))) => Some(
                Err(RuntimeError::MismatchedTypes(MismatchKind::MapNumber, *line)),
            ),
        },
    }
}

} // verus!
