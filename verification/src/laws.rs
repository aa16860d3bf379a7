//! The library's laws: properties of the semantics that hold for every list
//! and every tree, stated over the spec-level model and proved once and for
//! all. The executable operations are pinned to that model by their own
//! contracts, so these laws carry over to every run.
use vstd::prelude::*;

use crate::codec::codepoints_of;
use crate::codec::is_scalar_value;
use crate::codec::spec_list_to_chars;
use crate::codec::spec_list_to_string;
use crate::errors::MismatchKind;
use crate::errors::RuntimeError;
use crate::parsetree::ParseTree;
use crate::semantics::lemma_length_nonneg;
use crate::semantics::outcome_view;
use crate::semantics::spec_eval;
use crate::semantics::spec_index;
use crate::semantics::spec_induct_from;
use crate::semantics::spec_length;
use crate::value::ListView;
use crate::value::Value;
use crate::value::ValueView;

verus! {

/// A negative index into an exact list reaches the same element as the
/// equivalent index from the front: for `0 <= i < len`, indexing at `i` and
/// at `i - len` agree.
pub proof fn lemma_exact_negative_index(s: Seq<ValueView>, i: int, fuel: nat)
    requires
        0 <= i < s.len(),
        s.len() <= i64::MAX,
        fuel >= 1,
    ensures
        spec_index(ListView::Exact(s), i, fuel) == spec_index(
            ListView::Exact(s),
            i - s.len(),
            fuel,
        ),
{
}

/// The length of a concatenation is the sum of the lengths, whenever both
/// halves are finite and the sum fits in an `i64`.
pub proof fn lemma_concat_length(a: ListView, b: ListView, la: i64, lb: i64)
    requires
        spec_length(a) == Ok::<i64, RuntimeError>(la),
        spec_length(b) == Ok::<i64, RuntimeError>(lb),
        la + lb <= i64::MAX,
    ensures
        spec_length(ListView::Concat(Box::new(a), Box::new(b))) == Ok::<i64, RuntimeError>(
            (la + lb) as i64,
        ),
{
}

/// An index below the first half's length reads the first half of a
/// concatenation, unchanged.
pub proof fn lemma_concat_index_first(a: ListView, b: ListView, la: i64, i: int, fuel: nat)
    requires
        spec_length(a) == Ok::<i64, RuntimeError>(la),
        0 <= i < la,
        fuel >= 1,
    ensures
        spec_index(ListView::Concat(Box::new(a), Box::new(b)), i, fuel) == spec_index(
            a,
            i,
            (fuel - 1) as nat,
        ),
{
}

/// An index at or past the first half's length reads the second half of a
/// concatenation, shifted by that length.
pub proof fn lemma_concat_index_second(a: ListView, b: ListView, la: i64, j: int, fuel: nat)
    requires
        spec_length(a) == Ok::<i64, RuntimeError>(la),
        0 <= j,
        fuel >= 1,
    ensures
        spec_index(ListView::Concat(Box::new(a), Box::new(b)), la + j, fuel) == spec_index(
            b,
            j,
            (fuel - 1) as nat,
        ),
{
    lemma_length_nonneg(a);
}

/// A map list is as long as its source.
pub proof fn lemma_map_length(ft: ParseTree, src: ListView)
    ensures
        spec_length(ListView::Mapping(ft, Box::new(src))) == spec_length(src),
{
}

/// An in-bounds index into a map list evaluates the captured sub-tree on the
/// source element at the same index, and returns exactly that outcome.
pub proof fn lemma_map_index(ft: ParseTree, src: ListView, len: i64, i: int, fuel: nat)
    requires
        spec_length(src) == Ok::<i64, RuntimeError>(len),
        0 <= i < len,
        fuel >= 1,
    ensures
        spec_index(ListView::Mapping(ft, Box::new(src)), i, fuel) == (match spec_index(
            src,
            i,
            (fuel - 1) as nat,
        ) {
            None => None,
            Some(Err(e)) => Some(Err::<ValueView, RuntimeError>(e)),
            Some(Ok(v)) => spec_eval(ft, v, (fuel - 1) as nat),
        }),
{
}

/// Indexing is deterministic: two lookups of the same element with the same
/// fuel return equal values, which is what a memo table would guarantee.
pub proof fn lemma_index_stable(
    r1: Option<Result<Value, RuntimeError>>,
    r2: Option<Result<Value, RuntimeError>>,
    l: ListView,
    i: int,
    fuel: nat,
)
    requires
        outcome_view(r1) == spec_index(l, i, fuel),
        outcome_view(r2) == spec_index(l, i, fuel),
    ensures
        outcome_view(r1) == outcome_view(r2),
{
}

/// Element 0 of an induction list is its initial value.
pub proof fn lemma_induction_index_zero(ft: ParseTree, init: ValueView, fuel: nat)
    requires
        fuel >= 1,
    ensures
        spec_index(ListView::Induction(ft, Box::new(init)), 0, fuel) == Some(
            Ok::<ValueView, RuntimeError>(init),
        ),
{
    assert(spec_induct_from(ft, init, 0, (fuel - 1) as nat) == Some(
        Ok::<ValueView, RuntimeError>(init),
    ));
}

/// Peeling the induction sequence from the back: element `n + 1` is the step
/// function evaluated on element `n` (with fuel exhaustion and errors
/// propagating).
pub proof fn lemma_induct_from_step(ft: ParseTree, init: ValueView, n: nat, fuel: nat)
    ensures
        spec_induct_from(ft, init, n + 1, fuel) == (match spec_induct_from(ft, init, n, fuel) {
            None => None,
            Some(Err(e)) => Some(Err::<ValueView, RuntimeError>(e)),
            Some(Ok(prev)) => spec_eval(ft, prev, fuel),
        }),
    decreases n,
{
    if fuel == 0 {
        if n == 0 {
            assert(spec_eval(ft, init, 0) is None);
        } else {
            assert(spec_induct_from(ft, init, n + 1, 0) is None);
            assert(spec_induct_from(ft, init, n, 0) is None);
        }
    } else if n == 0 {
        assert(spec_induct_from(ft, init, 1, fuel) == (match spec_eval(ft, init, fuel) {
            None => None,
            Some(Err(e)) => Some(Err::<ValueView, RuntimeError>(e)),
            Some(Ok(next)) => spec_induct_from(ft, next, 0, fuel),
        }));
    } else {
        match spec_eval(ft, init, fuel) {
            None => {},
            Some(Err(e)) => {},
            Some(Ok(next)) => {
                lemma_induct_from_step(ft, next, (n - 1) as nat, fuel);
            },
        }
    }
}

/// Element `n + 1` of an induction list is the step function evaluated on
/// element `n`.
pub proof fn lemma_induction_index_succ(ft: ParseTree, init: ValueView, n: nat, fuel: nat)
    requires
        fuel >= 1,
    ensures
        spec_index(ListView::Induction(ft, Box::new(init)), n as int + 1, fuel) == (match spec_index(
            ListView::Induction(ft, Box::new(init)),
            n as int,
            fuel,
        ) {
            None => None,
            Some(Err(e)) => Some(Err::<ValueView, RuntimeError>(e)),
            Some(Ok(prev)) => spec_eval(ft, prev, (fuel - 1) as nat),
        }),
{
    lemma_induct_from_step(ft, init, n, (fuel - 1) as nat);
}

/// The length of an induction list is always the infinite-list error.
pub proof fn lemma_induction_length(ft: ParseTree, init: ValueView)
    ensures
        spec_length(ListView::Induction(ft, Box::new(init))) == Err::<i64, RuntimeError>(
            RuntimeError::ResolvingInfiniteList,
        ),
{
}

/// `Length` applied to a number yields its absolute value, for every number
/// above `i64::MIN` (whose absolute value has no `i64` representation).
pub proof fn lemma_length_of_number(n: i64, line: u32, aline: u32, input: ValueView, fuel: nat)
    requires
        n != i64::MIN,
        fuel >= 2,
    ensures
        spec_eval(
            ParseTree::Length { arg: Box::new(ParseTree::Number { n, line }), line: aline },
            input,
            fuel,
        ) == Some(
            Ok::<ValueView, RuntimeError>(
                ValueView::Number(
                    if n < 0 {
                        (-n) as i64
                    } else {
                        n
                    },
                ),
            ),
        ),
{
    assert(spec_eval(ParseTree::Number { n, line }, input, (fuel - 1) as nat) == Some(
        Ok::<ValueView, RuntimeError>(ValueView::Number(n)),
    ));
}

/// `Addition` of a number and a list (in either order) is a type mismatch
/// quoting the operator's source line.
pub proof fn lemma_addition_mismatch(
    arg1: ParseTree,
    arg2: ParseTree,
    line: u32,
    input: ValueView,
    fuel: nat,
    v1: ValueView,
    v2: ValueView,
)
    requires
        fuel >= 1,
        spec_eval(arg1, input, (fuel - 1) as nat) == Some(Ok::<ValueView, RuntimeError>(v1)),
        spec_eval(arg2, input, (fuel - 1) as nat) == Some(Ok::<ValueView, RuntimeError>(v2)),
        (v1 is Number && v2 is List) || (v1 is List && v2 is Number),
    ensures
        spec_eval(
            ParseTree::Addition { arg1: Box::new(arg1), arg2: Box::new(arg2), line },
            input,
            fuel,
        ) == Some(
            Err::<ValueView, RuntimeError>(
                RuntimeError::MismatchedTypes(MismatchKind::AddNumberAndList, line),
            ),
        ),
{
}

/// `IndexSubtraction` whose second operand is a list is a type mismatch,
/// whatever the first operand.
pub proof fn lemma_index_subtraction_mismatch(
    arg1: ParseTree,
    arg2: ParseTree,
    line: u32,
    input: ValueView,
    fuel: nat,
    v1: ValueView,
    v2: ValueView,
)
    requires
        fuel >= 1,
        spec_eval(arg1, input, (fuel - 1) as nat) == Some(Ok::<ValueView, RuntimeError>(v1)),
        spec_eval(arg2, input, (fuel - 1) as nat) == Some(Ok::<ValueView, RuntimeError>(v2)),
        v2 is List,
    ensures
        spec_eval(
            ParseTree::IndexSubtraction { arg1: Box::new(arg1), arg2: Box::new(arg2), line },
            input,
            fuel,
        ) == Some(
            Err::<ValueView, RuntimeError>(
                RuntimeError::MismatchedTypes(MismatchKind::SubtractOrIndexWithList, line),
            ),
        ),
{
}

/// Indexing an exact list at or past its length, or below the negative of its
/// length, is an out-of-bounds error.
pub proof fn lemma_exact_index_out_of_bounds(s: Seq<ValueView>, i: int, fuel: nat)
    requires
        s.len() <= i64::MAX,
        i >= s.len() || i < -(s.len() as int),
        fuel >= 1,
    ensures
        spec_index(ListView::Exact(s), i, fuel) == Some(
            Err::<ValueView, RuntimeError>(RuntimeError::OutOfBounds),
        ),
{
}

/// Indexing an exact list anywhere within its bounds (negative indices
/// included) succeeds, and returns the element at the normalized position.
pub proof fn lemma_exact_index_in_bounds(s: Seq<ValueView>, i: int, fuel: nat)
    requires
        s.len() <= i64::MAX,
        -(s.len() as int) <= i < s.len(),
        fuel >= 1,
    ensures
        spec_index(ListView::Exact(s), i, fuel) == Some(
            Ok::<ValueView, RuntimeError>(
                s[if i >= 0 {
                    i
                } else {
                    s.len() + i
                }],
            ),
        ),
{
}

/// An induction list prints as the three-dot literal, whatever its step tree
/// and initial value, and printing it succeeds.
pub proof fn lemma_print_induction(ft: ParseTree, init: ValueView, fuel: nat)
    ensures
        crate::render::spec_print(ValueView::List(ListView::Induction(ft, Box::new(init))), fuel)
            == Some(Ok::<Seq<char>, RuntimeError>(seq!['[', '.', '.', '.', ']'])),
{
}

/// A one-element exact list holding an induction list prints as `[[...]]`:
/// the literal stands at the element's position and printing completes.
pub proof fn lemma_print_nested_induction(ft: ParseTree, init: ValueView, fuel: nat)
    requires
        fuel >= 2,
    ensures
        crate::render::spec_print(
            ValueView::List(
                ListView::Exact(seq![ValueView::List(ListView::Induction(ft, Box::new(init)))]),
            ),
            fuel,
        ) == Some(
            Ok::<Seq<char>, RuntimeError>(seq!['[', '[', '.', '.', '.', ']', ']']),
        ),
{
    let inner = ValueView::List(ListView::Induction(ft, Box::new(init)));
    let s = seq![inner];
    assert(spec_index(ListView::Exact(s), 0, (fuel - 1) as nat) == Some(
        Ok::<ValueView, RuntimeError>(inner),
    ));
    assert(crate::render::spec_print(inner, (fuel - 1) as nat) == Some(
        Ok::<Seq<char>, RuntimeError>(seq!['[', '.', '.', '.', ']']),
    ));
    assert(crate::render::spec_print_elems(ListView::Exact(s), 1, 1, fuel) == Some(
        Ok::<Seq<char>, RuntimeError>(Seq::empty()),
    ));
    assert(crate::render::spec_print_elems(ListView::Exact(s), 0, 1, fuel) == Some(
        Ok::<Seq<char>, RuntimeError>(
            seq!['[', '.', '.', '.', ']'] + Seq::<char>::empty() + Seq::<char>::empty(),
        ),
    ));
    assert(seq!['['] + (seq!['[', '.', '.', '.', ']'] + Seq::<char>::empty() + Seq::<char>::empty())
        + seq![']'] =~= seq!['[', '[', '.', '.', '.', ']', ']']);
}

/// The characters read from elements `idx`, ... of an exact list of valid
/// codepoints spell exactly those codepoints.
proof fn lemma_codec_chars(nums: Seq<ValueView>, idx: int, fuel: nat)
    requires
        nums.len() <= i64::MAX,
        forall|k: int|
            0 <= k < nums.len() ==> ((#[trigger] nums[k]) matches ValueView::Number(v)
                && is_scalar_value(v as int)),
        0 <= idx <= nums.len(),
        fuel >= 2,
    ensures
        spec_list_to_chars(ListView::Exact(nums), idx, nums.len() as int, fuel) matches Some(
            Ok(chars),
        ) && chars.len() == nums.len() - idx && forall|k: int|
            0 <= k < chars.len() ==> ValueView::Number((chars[k] as u32) as i64) == nums[idx + k],
    decreases nums.len() - idx,
{
    if idx < nums.len() {
        lemma_codec_chars(nums, idx + 1, fuel);
    }
}

/// Round trip: a finite list of valid codepoints reads as a string whose
/// codepoint list is the original list again.
pub proof fn lemma_codec_round_trip(nums: Seq<ValueView>, fuel: nat)
    requires
        nums.len() <= i64::MAX,
        forall|k: int|
            0 <= k < nums.len() ==> ((#[trigger] nums[k]) matches ValueView::Number(v)
                && is_scalar_value(v as int)),
        fuel >= 2,
    ensures
        spec_list_to_string(ValueView::List(ListView::Exact(nums)), fuel) matches Some(Ok(chars))
            && codepoints_of(chars) == nums,
{
    lemma_codec_chars(nums, 0, fuel);
    match spec_list_to_string(ValueView::List(ListView::Exact(nums)), fuel) {
        Some(Ok(chars)) => {
            assert(codepoints_of(chars) =~= nums);
        },
        _ => {
            assert(false);
        },
    }
}

} // verus!
