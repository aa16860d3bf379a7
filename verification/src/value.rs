//! The runtime value domain: signed 64-bit numbers and lists.
//!
//! Four list kinds stand behind one interface: `Exact` (fully materialized),
//! `Induction` (infinite, produced by iterating a captured sub-tree),
//! `Map` (lazy element-wise application of a captured sub-tree), and
//! `Concat` (lazy concatenation). Lists own their sources by value; since
//! evaluation is deterministic, recomputing an element always yields the
//! value a memo table would have returned.
//!
//! Every type here has a mathematical view (`ValueView`, `ListView`) over
//! which all contracts are stated.
use vstd::prelude::*;

use crate::parsetree::ParseTree;

verus! {

broadcast use vstd::std_specs::vec::axiom_vec_index_decreases;

/// A runtime value: a number or a list.
pub enum Value {
    Number(i64),
    List(List),
}

/// A list value, one of the four concrete list kinds.
pub enum List {
    Exact(ExactList),
    Induction(Box<LazyInductionList>),
    Mapping(Box<LazyMapList>),
    Concat(Box<LazyConcatList>),
}

/// A dense, fully materialized list.
pub struct ExactList {
    pub contents: Vec<Value>,
}

/// The infinite sequence `x0 = initial_value`, `x(n+1) = evaluate(function, xn)`.
pub struct LazyInductionList {
    pub function: ParseTree,
    pub initial_value: Value,
}

/// The lazy list whose `i`-th element is `evaluate(function, source[i])`.
pub struct LazyMapList {
    pub function: ParseTree,
    pub source: List,
}

/// The lazy concatenation of two lists.
pub struct LazyConcatList {
    pub first: List,
    pub second: List,
}

/// The mathematical shape of a `Value`.
#[verifier::ext_equal]
pub enum ValueView {
    Number(i64),
    List(ListView),
}

/// The mathematical shape of a `List`.
#[verifier::ext_equal]
pub enum ListView {
    Exact(Seq<ValueView>),
    Induction(ParseTree, Box<ValueView>),
    Mapping(ParseTree, Box<ListView>),
    Concat(Box<ListView>, Box<ListView>),
}

pub open spec fn value_view(v: Value) -> ValueView
    decreases v,
{
    match v {
        Value::Number(n) => ValueView::Number(n),
        Value::List(l) => ValueView::List(list_view(l)),
    }
}

pub open spec fn list_view(l: List) -> ListView
    decreases l,
{
    match l {
        List::Exact(el) => ListView::Exact(vals_view(el.contents@)),
        List::Induction(il) => ListView::Induction(
            il.function,
            Box::new(value_view(il.initial_value)),
        ),
        List::Mapping(ml) => ListView::Mapping(ml.function, Box::new(list_view(ml.source))),
        List::Concat(cl) => ListView::Concat(
            Box::new(list_view(cl.first)),
            Box::new(list_view(cl.second)),
        ),
    }
}

pub open spec fn vals_view(s: Seq<Value>) -> Seq<ValueView>
    decreases s,
{
    if s.len() == 0 {
        Seq::empty()
    } else {
        vals_view(s.drop_last()).push(value_view(s.last()))
    }
}

/// `vals_view` maps `value_view` over the sequence, element by element.
pub broadcast proof fn lemma_vals_view(s: Seq<Value>)
    ensures
        (#[trigger] vals_view(s)).len() == s.len(),
        forall|i: int| 0 <= i < s.len() ==> vals_view(s)[i] == value_view(s[i]),
    decreases s,
{
    if s.len() > 0 {
        lemma_vals_view(s.drop_last());
    }
}

impl View for Value {
    type V = ValueView;

    open spec fn view(&self) -> ValueView {
        value_view(*self)
    }
}

impl View for List {
    type V = ListView;

    open spec fn view(&self) -> ListView {
        list_view(*self)
    }
}

impl View for ExactList {
    type V = ListView;

    open spec fn view(&self) -> ListView {
        ListView::Exact(vals_view(self.contents@))
    }
}

impl View for LazyInductionList {
    type V = ListView;

    open spec fn view(&self) -> ListView {
        ListView::Induction(self.function, Box::new(value_view(self.initial_value)))
    }
}

impl View for LazyMapList {
    type V = ListView;

    open spec fn view(&self) -> ListView {
        ListView::Mapping(self.function, Box::new(list_view(self.source)))
    }
}

impl View for LazyConcatList {
    type V = ListView;

    open spec fn view(&self) -> ListView {
        ListView::Concat(Box::new(list_view(self.first)), Box::new(list_view(self.second)))
    }
}

/// A structurally equal copy of each element; needed because `index` hands
/// out owned values from a shared list.
pub fn duplicate_values(items: &Vec<Value>) -> (r: Vec<Value>)
    ensures
        vals_view(r@) == vals_view(items@),
    decreases *items,
{
    let mut out: Vec<Value> = Vec::new();
    let mut i: usize = 0;
    while i < items.len()
        invariant
            i <= items.len(),
            out@.len() == i,
            forall|k: int| 0 <= k < i ==> value_view(out@[k]) == value_view(items@[k]),
        decreases items.len() - i,
    {
        proof {
            assert(decreases_to!(*items => items@[i as int]));
        }
        let v = items[i].duplicate();
        out.push(v);
        i = i + 1;
    }
    proof {
        lemma_vals_view(out@);
        lemma_vals_view(items@);
        assert(vals_view(out@) =~= vals_view(items@));
    }
    out
}

impl Value {
    /// A copy with the same view, built without sharing.
    pub fn duplicate(&self) -> (r: Value)
        ensures
            r@ == self@,
        decreases self,
    {
        match self {
            Value::Number(n) => Value::Number(*n),
            Value::List(l) => Value::List(l.duplicate()),
        }
    }
}

impl List {
    /// A copy with the same view, built without sharing.
    pub fn duplicate(&self) -> (r: List)
        ensures
            r@ == self@,
        decreases self,
    {
        match self {
            List::Exact(el) => {
                proof {
                    assert(decreases_to!(*self => el.contents));
                }
                List::Exact(ExactList { contents: duplicate_values(&el.contents) })
            }
            List::Induction(il) => List::Induction(
                Box::new(
                    LazyInductionList {
                        function: il.function.duplicate(),
                        initial_value: il.initial_value.duplicate(),
                    },
                ),
            ),
            List::Mapping(ml) => List::Mapping(
                Box::new(
                    LazyMapList { function: ml.function.duplicate(), source: ml.source.duplicate() },
                ),
            ),
            List::Concat(cl) => List::Concat(
                Box::new(
                    LazyConcatList { first: cl.first.duplicate(), second: cl.second.duplicate() },
                ),
            ),
        }
    }
}

impl ExactList {
    /// A materialized list holding exactly the given values.
    pub fn new(c: Vec<Value>) -> (r: ExactList)
        ensures
            r@ == ListView::Exact(vals_view(c@)),
    {
        ExactList { contents: c }
    }
}

impl LazyInductionList {
    /// The infinite list iterating `f` starting from `init`.
    pub fn new(f: ParseTree, init: Value) -> (r: LazyInductionList)
        ensures
            r@ == ListView::Induction(f, Box::new(init@)),
    {
        LazyInductionList { function: f, initial_value: init }
    }
}

impl LazyMapList {
    /// The lazy list applying `f` to each element of `s`.
    pub fn new(f: ParseTree, s: List) -> (r: LazyMapList)
        ensures
            r@ == ListView::Mapping(f, Box::new(s@)),
    {
        LazyMapList { function: f, source: s }
    }
}

impl LazyConcatList {
    /// The lazy concatenation of `l1` and `l2`.
    pub fn new(l1: List, l2: List) -> (r: LazyConcatList)
        ensures
            r@ == ListView::Concat(Box::new(l1@), Box::new(l2@)),
    {
        LazyConcatList { first: l1, second: l2 }
    }
}

} // verus!

// The executable list operations. Each one returns exactly what the
// fuel-indexed semantics in `semantics` prescribes: `None` when the fuel
// bound is exhausted, otherwise the definitive value or runtime error.
use crate::errors::RuntimeError;
use crate::semantics::outcome_view;
use crate::semantics::spec_eq;
use crate::semantics::spec_eq_elems;
use crate::semantics::spec_fix_from;
use crate::semantics::spec_index;
use crate::semantics::spec_induct_from;
use crate::semantics::spec_length;
use crate::semantics::spec_list_eq;
use crate::semantics::lemma_length_nonneg;

verus! {

impl ExactList {
    /// Random access: negative indices count from the end.
    pub fn index(&self, i: i64, fuel: u64) -> (r: Option<Result<Value, RuntimeError>>)
        ensures
            outcome_view(r) == spec_index(self@, i as int, fuel as nat),
        decreases fuel, 0int,
    {
        if fuel == 0 {
            return None;
        }
        proof {
            lemma_vals_view(self.contents@);
        }
        if self.contents.len() as u64 > i64::MAX as u64 {
            return Some(Err(RuntimeError::OutOfBounds));
        }
        let len = self.contents.len() as i64;
        if i >= len || i < -len {
            return Some(Err(RuntimeError::OutOfBounds));
        }
        let ti: usize = if i >= 0 {
            i as usize
        } else {
            (len + i) as usize
        };
        Some(Ok(self.contents[ti].duplicate()))
    }

    /// The element count, or an error if it does not fit in an `i64`.
    pub fn length(&self) -> (r: Result<i64, RuntimeError>)
        ensures
            r == spec_length(self@),
    {
        proof {
            lemma_vals_view(self.contents@);
        }
        if self.contents.len() as u64 > i64::MAX as u64 {
            Err(RuntimeError::OutOfBounds)
        } else {
            Ok(self.contents.len() as i64)
        }
    }
}

impl LazyInductionList {
    /// A non-negative index asks for the `i`-th iterate of the step function;
    /// a negative index asks for the first fixed point of the iteration.
    pub fn index(&self, i: i64, fuel: u64) -> (r: Option<Result<Value, RuntimeError>>)
        ensures
            outcome_view(r) == spec_index(self@, i as int, fuel as nat),
        decreases fuel, 0int,
    {
        if fuel == 0 {
            return None;
        }
        let f = fuel - 1;
        if i >= 0 {
            let mut cur = self.initial_value.duplicate();
            let mut k: i64 = 0;
            while k < i
                invariant
                    0 <= k <= i,
                    f < fuel,
                    spec_index(self@, i as int, fuel as nat) == spec_induct_from(
                        self.function,
                        cur@,
                        (i - k) as nat,
                        f as nat,
                    ),
                decreases i - k,
            {
                match crate::evaluate::evaluate(&self.function, &cur, f) {
                    None => {
                        return None;
                    },
                    Some(Err(e)) => {
                        return Some(Err(e));
                    },
                    Some(Ok(next)) => {
                        cur = next;
                        k = k + 1;
                    },
                }
            }
            Some(Ok(cur))
        } else {
            let mut cur = self.initial_value.duplicate();
            let mut b = f;
            loop
                invariant
                    b < fuel,
                    spec_index(self@, i as int, fuel as nat) == spec_fix_from(
                        self.function,
                        cur@,
                        b as nat,
                    ),
                decreases b,
            {
                if b == 0 {
                    return None;
                }
                let fb = b - 1;
                match crate::evaluate::evaluate(&self.function, &cur, fb) {
                    None => {
                        return None;
                    },
                    Some(Err(e)) => {
                        return Some(Err(e));
                    },
                    Some(Ok(next)) => match value_eq(&cur, &next, fb) {
                        None => {
                            return None;
                        },
                        Some(true) => {
                            return Some(Ok(next));
                        },
                        Some(false) => {
                            cur = next;
                            b = fb;
                        },
                    },
                }
            }
        }
    }

    /// An induction list is infinite; its length is always an error.
    pub fn length(&self) -> (r: Result<i64, RuntimeError>)
        ensures
            r == spec_length(self@),
    {
        Err(RuntimeError::ResolvingInfiniteList)
    }
}

impl LazyMapList {
    /// Applies the captured sub-tree to the source element at the (normalized)
    /// index.
    pub fn index(&self, i: i64, fuel: u64) -> (r: Option<Result<Value, RuntimeError>>)
        ensures
            outcome_view(r) == spec_index(self@, i as int, fuel as nat),
        decreases fuel, 0int,
    {
        if fuel == 0 {
            return None;
        }
        let f = fuel - 1;
        let len = match self.source.length() {
            Err(e) => {
                return Some(Err(e));
            },
            Ok(n) => n,
        };
        proof {
            lemma_length_nonneg(self.source@);
        }
        if i >= len || i < -len {
            return Some(Err(RuntimeError::OutOfBounds));
        }
        let ti = if i >= 0 {
            i
        } else {
            len + i
        };
        match self.source.index(ti, f) {
            None => None,
            Some(Err(e)) => Some(Err(e)),
            Some(Ok(v)) => crate::evaluate::evaluate(&self.function, &v, f),
        }
    }

    /// The length of the source list.
    pub fn length(&self) -> (r: Result<i64, RuntimeError>)
        ensures
            r == spec_length(self@),
        decreases self,
    {
        self.source.length()
    }
}

impl LazyConcatList {
    /// Routes the index to the first or the second list. When the first list
    /// has no finite length the index is delegated to it unchanged; negative
    /// indices are normalized against the total length first.
    pub fn index(&self, i: i64, fuel: u64) -> (r: Option<Result<Value, RuntimeError>>)
        ensures
            outcome_view(r) == spec_index(self@, i as int, fuel as nat),
        decreases fuel, 0int,
    {
        if fuel == 0 {
            return None;
        }
        let f = fuel - 1;
        let la = match self.first.length() {
            Err(_) => {
                return self.first.index(i, f);
            },
            Ok(n) => n,
        };
        proof {
            lemma_length_nonneg(self.first@);
        }
        if i >= 0 {
            if i < la {
                self.first.index(i, f)
            } else {
                self.second.index(i - la, f)
            }
        } else {
            let n = match self.length() {
                Err(e) => {
                    return Some(Err(e));
                },
                Ok(n) => n,
            };
            proof {
                lemma_length_nonneg(self@);
            }
            if i < -n {
                return Some(Err(RuntimeError::OutOfBounds));
            }
            let ni = n + i;
            if ni < la {
                self.first.index(ni, f)
            } else {
                self.second.index(ni - la, f)
            }
        }
    }

    /// The sum of the two lengths; an error if either is infinite or the sum
    /// does not fit in an `i64`.
    pub fn length(&self) -> (r: Result<i64, RuntimeError>)
        ensures
            r == spec_length(self@),
        decreases self,
    {
        let la = match self.first.length() {
            Err(e) => {
                return Err(e);
            },
            Ok(n) => n,
        };
        let lb = match self.second.length() {
            Err(e) => {
                return Err(e);
            },
            Ok(n) => n,
        };
        proof {
            lemma_length_nonneg(self.first@);
            lemma_length_nonneg(self.second@);
        }
        match la.checked_add(lb) {
            None => Err(RuntimeError::OutOfBounds),
            Some(s) => Ok(s),
        }
    }
}

impl List {
    /// Random access through the common list interface.
    pub fn index(&self, i: i64, fuel: u64) -> (r: Option<Result<Value, RuntimeError>>)
        ensures
            outcome_view(r) == spec_index(self@, i as int, fuel as nat),
        decreases fuel, 3int,
    {
        match self {
            List::Exact(el) => el.index(i, fuel),
            List::Induction(il) => il.index(i, fuel),
            List::Mapping(ml) => ml.index(i, fuel),
            List::Concat(cl) => cl.index(i, fuel),
        }
    }

    /// The finite length, or an error for an infinite list.
    pub fn length(&self) -> (r: Result<i64, RuntimeError>)
        ensures
            r == spec_length(self@),
        decreases self,
    {
        match self {
            List::Exact(el) => el.length(),
            List::Induction(il) => il.length(),
            List::Mapping(ml) => ml.length(),
            List::Concat(cl) => cl.length(),
        }
    }
}

/// Structural equality on values: numbers by integer equality, finite lists
/// element-wise; infinite lists are incomparable and compare unequal.
/// `None` means the fuel bound was exhausted before an answer was reached.
pub fn value_eq(a: &Value, b: &Value, fuel: u64) -> (r: Option<bool>)
    ensures
        r == spec_eq(a@, b@, fuel as nat),
    decreases fuel, 2int,
{
    if fuel == 0 {
        return None;
    }
    match (a, b) {
        (Value::Number(n1), Value::Number(n2)) => Some(n1 == n2),
        (Value::List(l1), Value::List(l2)) => match list_eq_helper(l1, l2, fuel) {
            None => None,
            Some(Ok(r)) => Some(r),
            Some(Err(_)) => Some(false),
        },
        _ => Some(false),
    }
}

/// Element-wise equality of two lists, propagating the length or lookup
/// errors that `value_eq` then turns into `false`.
pub fn list_eq_helper(l1: &List, l2: &List, fuel: u64) -> (r: Option<Result<bool, RuntimeError>>)
    ensures
        r == spec_list_eq(l1@, l2@, fuel as nat),
    decreases fuel, 1int,
{
    let n1 = match l1.length() {
        Err(e) => {
            return Some(Err(e));
        },
        Ok(n) => n,
    };
    let n2 = match l2.length() {
        Err(e) => {
            return Some(Err(e));
        },
        Ok(n) => n,
    };
    if n1 != n2 {
        return Some(Ok(false));
    }
    proof {
        lemma_length_nonneg(l1@);
    }
    let mut idx: i64 = 0;
    while idx < n1
        invariant
            0 <= idx <= n1,
            spec_list_eq(l1@, l2@, fuel as nat) == spec_eq_elems(
                l1@,
                l2@,
                idx as int,
                n1 as int,
                fuel as nat,
            ),
        decreases n1 - idx,
    {
        if fuel == 0 {
            return None;
        }
        let f = fuel - 1;
        let v1 = match l1.index(idx, f) {
            None => {
                return None;
            },
            Some(Err(e)) => {
                return Some(Err(e));
            },
            Some(Ok(v)) => v,
        };
        let v2 = match l2.index(idx, f) {
            None => {
                return None;
            },
            Some(Err(e)) => {
                return Some(Err(e));
            },
            Some(Ok(v)) => v,
        };
        match value_eq(&v1, &v2, f) {
            None => {
                return None;
            },
            Some(false) => {
                return Some(Ok(false));
            },
            Some(true) => {
                idx = idx + 1;
            },
        }
    }
    Some(Ok(true))
}

} // verus!

verus! {

impl Value {
    /// Eagerly computes every element of this value (and of its sublists), as
    /// the printer requires; errors on any value containing an infinite list.
    pub fn force_resolve(&self, fuel: u64) -> (r: Option<Result<(), RuntimeError>>)
        ensures
            r == crate::semantics::spec_force(self@, fuel as nat),
        decreases fuel, 2int,
    {
        if fuel == 0 {
            return None;
        }
        match self {
            Value::Number(_) => Some(Ok(())),
            Value::List(l) => l.force_resolve(fuel - 1),
        }
    }
}

impl List {
    /// Forces every element of the list.
    pub fn force_resolve(&self, fuel: u64) -> (r: Option<Result<(), RuntimeError>>)
        ensures
            r == crate::semantics::spec_force_list(self@, fuel as nat),
        decreases fuel, 1int,
    {
        match self {
            List::Exact(el) => el.force_resolve(fuel),
            List::Induction(il) => il.force_resolve(fuel),
            List::Mapping(ml) => ml.force_resolve(fuel),
            List::Concat(cl) => cl.force_resolve(fuel),
        }
    }
}

impl ExactList {
    /// Forces every element in turn.
    pub fn force_resolve(&self, fuel: u64) -> (r: Option<Result<(), RuntimeError>>)
        ensures
            r == crate::semantics::spec_force_list(self@, fuel as nat),
        decreases fuel, 0int,
    {
        if fuel == 0 {
            return None;
        }
        let f = fuel - 1;
        proof {
            lemma_vals_view(self.contents@);
        }
        let mut i: usize = 0;
        while i < self.contents.len()
            invariant
                0 <= i <= self.contents.len(),
                f < fuel,
                f == fuel - 1,
                vals_view(self.contents@).len() == self.contents@.len(),
                crate::semantics::spec_force_list(self@, fuel as nat)
                    == crate::semantics::spec_force_elems(
                    vals_view(self.contents@),
                    i as int,
                    fuel as nat,
                ),
            decreases self.contents.len() - i,
        {
            proof {
                lemma_vals_view(self.contents@);
            }
            match self.contents[i].force_resolve(f) {
                None => {
                    return None;
                },
                Some(Err(e)) => {
                    return Some(Err(e));
                },
                Some(Ok(u)) => {
                    i = i + 1;
                },
            }
        }
        Some(Ok(()))
    }
}

impl LazyInductionList {
    /// An infinite list can never be fully resolved.
    pub fn force_resolve(&self, fuel: u64) -> (r: Option<Result<(), RuntimeError>>)
        ensures
            r == crate::semantics::spec_force_list(self@, fuel as nat),
        decreases fuel, 0int,
    {
        if fuel == 0 {
            return None;
        }
        Some(Err(RuntimeError::ResolvingInfiniteList))
    }
}

impl LazyMapList {
    /// Forces the source, then computes every mapped element.
    pub fn force_resolve(&self, fuel: u64) -> (r: Option<Result<(), RuntimeError>>)
        ensures
            r == crate::semantics::spec_force_list(self@, fuel as nat),
        decreases fuel, 0int,
    {
        if fuel == 0 {
            return None;
        }
        let f = fuel - 1;
        let len = match self.source.length() {
            Err(e) => {
                return Some(Err(e));
            },
            Ok(n) => n,
        };
        proof {
            lemma_length_nonneg(self.source@);
        }
        match self.source.force_resolve(f) {
            None => {
                return None;
            },
            Some(Err(e)) => {
                return Some(Err(e));
            },
            Some(Ok(u)) => {},
        }
        let mut i: i64 = 0;
        while i < len
            invariant
                0 <= i <= len,
                f < fuel,
                f == fuel - 1,
                crate::semantics::spec_force_list(self@, fuel as nat)
                    == crate::semantics::spec_force_map_elems(
                    self.function,
                    self.source@,
                    i as int,
                    len as int,
                    fuel as nat,
                ),
            decreases len - i,
        {
            let v = match self.source.index(i, f) {
                None => {
                    return None;
                },
                Some(Err(e)) => {
                    return Some(Err(e));
                },
                Some(Ok(v)) => v,
            };
            match crate::evaluate::evaluate(&self.function, &v, f) {
                None => {
                    return None;
                },
                Some(Err(e)) => {
                    return Some(Err(e));
                },
                Some(Ok(u)) => {
                    i = i + 1;
                },
            }
        }
        Some(Ok(()))
    }
}

impl LazyConcatList {
    /// Forces both halves in turn.
    pub fn force_resolve(&self, fuel: u64) -> (r: Option<Result<(), RuntimeError>>)
        ensures
            r == crate::semantics::spec_force_list(self@, fuel as nat),
        decreases fuel, 0int,
    {
        if fuel == 0 {
            return None;
        }
        let f = fuel - 1;
        match self.first.force_resolve(f) {
            None => None,
            Some(Err(e)) => Some(Err(e)),
            Some(Ok(u)) => self.second.force_resolve(f),
        }
    }
}

} // verus!

verus! {

/// The capability set shared by every list kind: random access, finite
/// length, and eager resolution, each pinned to the fuel-indexed semantics of
/// the list's view.
pub trait ListLike: View<V = ListView> {
    /// Random access; negative indices count from the end of a finite list.
    fn index(&self, i: i64, fuel: u64) -> (r: Option<Result<Value, RuntimeError>>)
        ensures
            outcome_view(r) == spec_index(self@, i as int, fuel as nat),
    ;

    /// The finite length, or an error for an infinite list.
    fn length(&self) -> (r: Result<i64, RuntimeError>)
        ensures
            r == spec_length(self@),
    ;

    /// Computes every element eagerly.
    fn force_resolve(&self, fuel: u64) -> (r: Option<Result<(), RuntimeError>>)
        ensures
            r == crate::semantics::spec_force_list(self@, fuel as nat),
    ;
}

impl ListLike for ExactList {
    fn index(&self, i: i64, fuel: u64) -> Option<Result<Value, RuntimeError>> {
        ExactList::index(self, i, fuel)
    }

    fn length(&self) -> Result<i64, RuntimeError> {
        ExactList::length(self)
    }

    fn force_resolve(&self, fuel: u64) -> Option<Result<(), RuntimeError>> {
        ExactList::force_resolve(self, fuel)
    }
}

impl ListLike for LazyInductionList {
    fn index(&self, i: i64, fuel: u64) -> Option<Result<Value, RuntimeError>> {
        LazyInductionList::index(self, i, fuel)
    }

    fn length(&self) -> Result<i64, RuntimeError> {
        LazyInductionList::length(self)
    }

    fn force_resolve(&self, fuel: u64) -> Option<Result<(), RuntimeError>> {
        LazyInductionList::force_resolve(self, fuel)
    }
}

impl ListLike for LazyMapList {
    fn index(&self, i: i64, fuel: u64) -> Option<Result<Value, RuntimeError>> {
        LazyMapList::index(self, i, fuel)
    }

    fn length(&self) -> Result<i64, RuntimeError> {
        LazyMapList::length(self)
    }

    fn force_resolve(&self, fuel: u64) -> Option<Result<(), RuntimeError>> {
        LazyMapList::force_resolve(self, fuel)
    }
}

impl ListLike for LazyConcatList {
    fn index(&self, i: i64, fuel: u64) -> Option<Result<Value, RuntimeError>> {
        LazyConcatList::index(self, i, fuel)
    }

    fn length(&self) -> Result<i64, RuntimeError> {
        LazyConcatList::length(self)
    }

    fn force_resolve(&self, fuel: u64) -> Option<Result<(), RuntimeError>> {
        LazyConcatList::force_resolve(self, fuel)
    }
}

} // verus!
