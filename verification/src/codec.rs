//! The string <-> list codec.
//!
//! A string becomes the exact list of its codepoints, each a `Number` with
//! the character's Unicode scalar value; a finite list of numbers that are
//! all valid scalar values becomes the string spelling those characters.
//! Any other value - a number, an infinite list, a list holding a list or a
//! number outside the scalar range - fails with `StringError`.
use vstd::prelude::*;
use vstd::string::StrSliceExecFns;

use crate::errors::RuntimeError;
use crate::semantics::spec_index;
use crate::semantics::spec_length;
use crate::semantics::lemma_length_nonneg;
use crate::value::ExactList;
use crate::value::List;
use crate::value::ListView;
use crate::value::Value;
use crate::value::ValueView;
use crate::value::lemma_vals_view;
use crate::value::vals_view;
use crate::render::chars_to_string;

verus! {

/// A value could not be read as a string, or a string's worth of characters
/// could not be produced from a value.
#[derive(Debug, Clone, Copy, PartialEq, Eq)]
pub struct StringError;

/// Whether `n` is a Unicode scalar value: at most 0x10FFFF and not a
/// surrogate. Exactly these numbers convert to characters.
pub open spec fn is_scalar_value(n: int) -> bool {
    (0 <= n && n < 0xD800) || (0xDFFF < n && n <= 0x10FFFF)
}

/// The codepoint list of a string: one `Number` per character, in order.
pub open spec fn codepoints_of(s: Seq<char>) -> Seq<ValueView> {
    Seq::new(s.len(), |i: int| ValueView::Number((s[i] as u32) as i64))
}

/// The characters spelled by elements `idx`, `idx + 1`, ... of a list of
/// length `len`: each element must be a `Number` holding a scalar value;
/// element lookup errors become `StringError`.
pub open spec fn spec_list_to_chars(l: ListView, idx: int, len: int, fuel: nat) -> Option<
    Result<Seq<char>, StringError>,
>
    decreases fuel, (len - idx),
{
    if idx >= len {
        Some(Ok(Seq::empty()))
    } else if fuel == 0 {
        None
    } else {
        let f = (fuel - 1) as nat;
        match spec_index(l, idx, f) {
            None => None,
            Some(Err(_)) => Some(Err(StringError)),
            Some(Ok(ValueView::List(_))) => Some(Err(StringError)),
            Some(Ok(ValueView::Number(n))) => {
                if is_scalar_value(n as int) {
                    match spec_list_to_chars(l, idx + 1, len, fuel) {
                        None => None,
                        Some(Err(e)) => Some(Err(e)),
                        Some(Ok(rest)) => Some(Ok(seq![(n as u32) as char] + rest)),
                    }
                } else {
                    Some(Err(StringError))
                }
            },
        }
    }
}

/// What reading a whole value as a string yields.
pub open spec fn spec_list_to_string(v: ValueView, fuel: nat) -> Option<
    Result<Seq<char>, StringError>,
> {
    match v {
        ValueView::Number(_) => Some(Err(StringError)),
        ValueView::List(l) => match spec_length(l) {
            Err(_) => Some(Err(StringError)),
            Ok(len) => spec_list_to_chars(l, 0, len as int, fuel),
        },
    }
}

/// Relies on `char::from_u32`: it returns `Some` exactly on Unicode scalar
/// values (codepoints at most 0x10FFFF outside the surrogate range), and the
/// returned character is the one with that value.
#[verifier::external_body]
fn char_from_u32(u: u32) -> (r: Option<char>)
    ensures
        r == if is_scalar_value(u as int) {
            Some((u as char))
        } else {
            None::<char>
        },
{
    char::from_u32(u)
}

/// Converts a string to the exact list of its codepoints; every string
/// converts, so the result is always `Ok`.
pub fn string_to_list(s: &String) -> (r: Result<Value, StringError>)
    ensures
        r matches Ok(v) && v@ == ValueView::List(ListView::Exact(codepoints_of(s@))),
{
    let slice = s.as_str();
    let n = slice.unicode_len();
    let mut contents: Vec<Value> = Vec::new();
    let mut i: usize = 0;
    while i < n
        invariant
            0 <= i <= n,
            n == s@.len(),
            slice@ == s@,
            contents@.len() == i,
            forall|k: int|
                0 <= k < i ==> crate::value::value_view(contents@[k]) == ValueView::Number(
                    (s@[k] as u32) as i64,
                ),
        decreases n - i,
    {
        let c = slice.get_char(i);
        contents.push(Value::Number((c as u32) as i64));
        i = i + 1;
    }
    proof {
        lemma_vals_view(contents@);
        assert(vals_view(contents@) =~= codepoints_of(s@));
    }
    Ok(Value::List(List::Exact(ExactList::new(contents))))
}

/// Reads a finite list of scalar-value numbers as a string. `None` means the
/// fuel bound ran out while resolving elements; `StringError` reports a value
/// that is not such a list.
pub fn list_to_string(v: &Value, fuel: u64) -> (r: Option<Result<String, StringError>>)
    ensures
        spec_list_to_string(v@, fuel as nat) is None ==> r is None,
        spec_list_to_string(v@, fuel as nat) matches Some(Err(e)) ==> r == Some(
            Err::<String, StringError>(e),
        ),
        spec_list_to_string(v@, fuel as nat) matches Some(Ok(s)) ==> (r matches Some(Ok(st))
            && st@ == s),
{
    let l = match v {
        Value::Number(_) => {
            return Some(Err(StringError));
        },
        Value::List(l) => l,
    };
    let len = match l.length() {
        Err(_) => {
            return Some(Err(StringError));
        },
        Ok(n) => n,
    };
    proof {
        lemma_length_nonneg(l@);
    }
    let mut out: Vec<char> = Vec::new();
    let ghost whole = spec_list_to_chars(l@, 0, len as int, fuel as nat);
    proof {
        match whole {
            Some(Ok(s0)) => {
                assert(Seq::<char>::empty() + s0 =~= s0);
            },
            _ => {},
        }
    }
    let mut i: i64 = 0;
    while i < len
        invariant
            0 <= i <= len,
            v@ == ValueView::List(l@),
            spec_length(l@) == Ok::<i64, RuntimeError>(len),
            whole == spec_list_to_chars(l@, 0, len as int, fuel as nat),
            match spec_list_to_chars(l@, i as int, len as int, fuel as nat) {
                None => whole is None,
                Some(Err(e)) => whole == Some(Err::<Seq<char>, StringError>(e)),
                Some(Ok(rest)) => whole == Some(Ok::<Seq<char>, StringError>(out@ + rest)),
            },
        decreases len - i,
    {
        if fuel == 0 {
            return None;
        }
        let f = fuel - 1;
        let n = match l.index(i, f) {
            None => {
                return None;
            },
            Some(Err(_)) => {
                return Some(Err(StringError));
            },
            Some(Ok(Value::List(_))) => {
                return Some(Err(StringError));
            },
            Some(Ok(Value::Number(n))) => n,
        };
        if n < 0 || n > 0x10FFFF {
            return Some(Err(StringError));
        }
        let c = match char_from_u32(n as u32) {
            None => {
                return Some(Err(StringError));
            },
            Some(c) => c,
        };
        let ghost w0 = out@;
        out.push(c);
        proof {
            match spec_list_to_chars(l@, i as int + 1, len as int, fuel as nat) {
                Some(Ok(rest)) => {
                    assert(w0 + (seq![c] + rest) =~= (w0 + seq![c]) + rest);
                    assert(out@ =~= w0 + seq![c]);
                },
                _ => {},
            }
        }
        i = i + 1;
    }
    proof {
        match whole {
            Some(Ok(s)) => {
                assert(out@ + Seq::<char>::empty() =~= out@);
            },
            _ => {},
        }
    }
    Some(Ok(chars_to_string(&out)))
}

} // verus!
