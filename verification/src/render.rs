//! Turning values into text.
//!
//! Numbers print as decimal; a finite list prints as `[e0, e1, ...]` with
//! each element printed recursively; a list whose length query reports an
//! infinite list prints as the literal `[...]` without recursing. Printing is
//! specified by `spec_print`, down to the exact character sequence.
use vstd::prelude::*;
use vstd::string::StrSliceExecFns;

use crate::errors::MismatchKind;
use crate::errors::RuntimeError;
use crate::semantics::spec_index;
use crate::semantics::spec_length;
use crate::value::ListView;
use crate::value::Value;
use crate::value::ValueView;

verus! {

/// The decimal digit character for `d` in `0..=9`.
pub open spec fn dec_digit(d: int) -> char {
    if d == 0 {
        '0'
    } else if d == 1 {
        '1'
    } else if d == 2 {
        '2'
    } else if d == 3 {
        '3'
    } else if d == 4 {
        '4'
    } else if d == 5 {
        '5'
    } else if d == 6 {
        '6'
    } else if d == 7 {
        '7'
    } else if d == 8 {
        '8'
    } else {
        '9'
    }
}

/// The decimal digits of a non-negative integer, most significant first.
pub open spec fn dec_nat(n: int) -> Seq<char>
    decreases n,
{
    if n < 10 {
        seq![dec_digit(n)]
    } else {
        dec_nat(n / 10).push(dec_digit(n % 10))
    }
}

/// The decimal rendering of a signed integer.
pub open spec fn dec_int(n: int) -> Seq<char> {
    if n < 0 {
        seq!['-'] + dec_nat(-n)
    } else {
        dec_nat(n)
    }
}

/// What printing a value yields: the exact character sequence on success,
/// the first runtime error hit while resolving elements otherwise, or `None`
/// when the fuel bound ran out.
pub open spec fn spec_print(v: ValueView, fuel: nat) -> Option<Result<Seq<char>, RuntimeError>>
    decreases fuel, 1nat, 0nat,
{
    match v {
        ValueView::Number(n) => Some(Ok(dec_int(n as int))),
        ValueView::List(l) => match spec_length(l) {
            Err(RuntimeError::ResolvingInfiniteList) => Some(Ok(seq!['[', '.', '.', '.', ']'])),
            Err(e) => Some(Err(e)),
            Ok(len) => match spec_print_elems(l, 0, len as int, fuel) {
                None => None,
                Some(Err(e)) => Some(Err(e)),
                Some(Ok(s)) => Some(Ok(seq!['['] + s + seq![']'])),
            },
        },
    }
}

/// The printed elements `idx`, `idx + 1`, ... of a list of length `len`,
/// with `", "` between consecutive elements.
pub open spec fn spec_print_elems(l: ListView, idx: int, len: int, fuel: nat) -> Option<
    Result<Seq<char>, RuntimeError>,
>
    decreases fuel, 0nat, (len - idx),
{
    if idx >= len {
        Some(Ok(Seq::empty()))
    } else if fuel == 0 {
        None
    } else {
        let f = (fuel - 1) as nat;
        match spec_index(l, idx, f) {
            None => None,
            Some(Err(e)) => Some(Err(e)),
            Some(Ok(v)) => match spec_print(v, f) {
                None => None,
                Some(Err(e)) => Some(Err(e)),
                Some(Ok(s)) => match spec_print_elems(l, idx + 1, len, fuel) {
                    None => None,
                    Some(Err(e)) => Some(Err(e)),
                    Some(Ok(rest)) => Some(
                        Ok(
                            s + (if idx < len - 1 {
                                seq![',', ' ']
                            } else {
                                Seq::empty()
                            }) + rest,
                        ),
                    ),
                },
            },
        }
    }
}

/// Appends the decimal digits of `m` to `out`.
pub fn push_dec_u64(out: &mut Vec<char>, m: u64)
    ensures
        final(out)@ == old(out)@ + dec_nat(m as int),
    decreases m,
{
    if m >= 10 {
        push_dec_u64(out, m / 10);
    }
    let d = m % 10;
    let c: char = if d == 0 {
        '0'
    } else if d == 1 {
        '1'
    } else if d == 2 {
        '2'
    } else if d == 3 {
        '3'
    } else if d == 4 {
        '4'
    } else if d == 5 {
        '5'
    } else if d == 6 {
        '6'
    } else if d == 7 {
        '7'
    } else if d == 8 {
        '8'
    } else {
        '9'
    };
    out.push(c);
    proof {
        assert(old(out)@ + dec_nat(m as int) =~= final(out)@);
    }
}

/// Appends the decimal rendering of `n` (sign included) to `out`.
pub fn push_dec_i64(out: &mut Vec<char>, n: i64)
    ensures
        final(out)@ == old(out)@ + dec_int(n as int),
{
    if n >= 0 {
        push_dec_u64(out, n as u64);
    } else {
        out.push('-');
        let m: u64 = ((-(n + 1)) as u64) + 1;
        proof {
            assert(m as int == -(n as int));
        }
        push_dec_u64(out, m);
        proof {
            assert(old(out)@ + dec_int(n as int) =~= final(out)@);
        }
    }
}

/// Appends the characters of a string slice to `out`.
pub fn push_str_chars(out: &mut Vec<char>, s: &str)
    ensures
        final(out)@ == old(out)@ + s@,
{
    let n = s.unicode_len();
    let mut i: usize = 0;
    while i < n
        invariant
            0 <= i <= n,
            n == s@.len(),
            out@ == old(out)@ + s@.subrange(0, i as int),
        decreases n - i,
    {
        let c = s.get_char(i);
        out.push(c);
        proof {
            assert(s@.subrange(0, (i + 1) as int) =~= s@.subrange(0, i as int).push(s@[i as int]));
            assert(out@ =~= old(out)@ + s@.subrange(0, (i + 1) as int));
        }
        i = i + 1;
    }
    proof {
        assert(s@.subrange(0, n as int) =~= s@);
    }
}

/// Relies on `<String as FromIterator<char>>::from_iter` (via `collect`):
/// collecting characters builds the string holding exactly those characters
/// in order.
#[verifier::external_body]
pub fn chars_to_string(v: &Vec<char>) -> (r: String)
    ensures
        r@ == v@,
{
    v.iter().collect()
}

} // verus!

verus! {

/// How a partially written buffer relates to the whole printed form: if the
/// remaining elements print as `rest`, then the whole is `written + rest`,
/// and fuel exhaustion or an error in the remainder is the whole's outcome.
pub open spec fn print_extends(
    whole: Option<Result<Seq<char>, RuntimeError>>,
    written: Seq<char>,
    rest: Option<Result<Seq<char>, RuntimeError>>,
) -> bool {
    match rest {
        None => whole is None,
        Some(Err(e)) => whole == Some(Err::<Seq<char>, RuntimeError>(e)),
        Some(Ok(s)) => whole == Some(Ok::<Seq<char>, RuntimeError>(written + s)),
    }
}

impl Value {
    /// Appends the printed form of this value to `out`. On an error or on
    /// fuel exhaustion the buffer holds an unspecified partial rendering.
    pub fn to_string_helper(&self, out: &mut Vec<char>, fuel: u64) -> (r: Option<
        Result<(), RuntimeError>,
    >)
        ensures
            spec_print(self@, fuel as nat) is None ==> r is None,
            spec_print(self@, fuel as nat) matches Some(Err(e)) ==> r == Some(
                Err::<(), RuntimeError>(e),
            ),
            spec_print(self@, fuel as nat) matches Some(Ok(s)) ==> (r == Some(
                Ok::<(), RuntimeError>(()),
            ) && final(out)@ == old(out)@ + s),
        decreases fuel, 1int,
    {
        match self {
            Value::Number(n) => {
                push_dec_i64(out, *n);
                Some(Ok(()))
            },
            Value::List(l) => {
                let len = match l.length() {
                    Err(RuntimeError::ResolvingInfiniteList) => {
                        push_str_chars(out, "[...]");
                        proof {
                            reveal_strlit("[...]");
                            assert("[...]"@ =~= seq!['[', '.', '.', '.', ']']);
                        }
                        return Some(Ok(()));
                    },
                    Err(e) => {
                        return Some(Err(e));
                    },
                    Ok(n) => n,
                };
                proof {
                    crate::semantics::lemma_length_nonneg(l@);
                }
                out.push('[');
                let ghost pre = out@;
                let ghost whole = spec_print_elems(l@, 0, len as int, fuel as nat);
                let ghost mut written = Seq::<char>::empty();
                proof {
                    assert(out@ =~= pre + written);
                    match whole {
                        Some(Ok(s0)) => {
                            assert(Seq::<char>::empty() + s0 =~= s0);
                        },
                        _ => {},
                    }
                }
                let mut i: i64 = 0;
                while i < len
                    invariant
                        0 <= i <= len,
                        self@ == ValueView::List(l@),
                        spec_length(l@) == Ok::<i64, RuntimeError>(len),
                        whole == spec_print_elems(l@, 0, len as int, fuel as nat),
                        out@ == pre + written,
                        print_extends(
                            whole,
                            written,
                            spec_print_elems(l@, i as int, len as int, fuel as nat),
                        ),
                    decreases len - i,
                {
                    if fuel == 0 {
                        return None;
                    }
                    let f = fuel - 1;
                    let v = match l.index(i, f) {
                        None => {
                            return None;
                        },
                        Some(Err(e)) => {
                            return Some(Err(e));
                        },
                        Some(Ok(v)) => v,
                    };
                    let ghost s = match spec_print(v@, f as nat) {
                        Some(Ok(s)) => s,
                        _ => Seq::<char>::empty(),
                    };
                    match v.to_string_helper(out, f) {
                        None => {
                            return None;
                        },
                        Some(Err(e)) => {
                            return Some(Err(e));
                        },
                        Some(Ok(u)) => {},
                    }
                    let ghost sep = if i < len - 1 {
                        seq![',', ' ']
                    } else {
                        Seq::<char>::empty()
                    };
                    if i < len - 1 {
                        out.push(',');
                        out.push(' ');
                    }
                    proof {
                        let w0 = written;
                        written = written + s + sep;
                        assert(out@ =~= pre + written);
                        match spec_print_elems(l@, i as int + 1, len as int, fuel as nat) {
                            Some(Ok(rest)) => {
                                assert(w0 + (s + sep + rest) =~= (w0 + s + sep) + rest);
                            },
                            _ => {},
                        }
                    }
                    i = i + 1;
                }
                out.push(']');
                proof {
                    assert(spec_print_elems(l@, len as int, len as int, fuel as nat) == Some(
                        Ok::<Seq<char>, RuntimeError>(Seq::empty()),
                    ));
                    assert(written + Seq::<char>::empty() =~= written);
                    match spec_print(self@, fuel as nat) {
                        Some(Ok(s)) => {
                            assert(out@ =~= old(out)@ + s);
                        },
                        _ => {},
                    }
                }
                Some(Ok(()))
            },
        }
    }

    /// The printed form of this value as a string, the first runtime error
    /// hit while resolving it, or `None` when the fuel bound ran out.
    pub fn to_string(&self, fuel: u64) -> (r: Option<Result<String, RuntimeError>>)
        ensures
            spec_print(self@, fuel as nat) is None ==> r is None,
            spec_print(self@, fuel as nat) matches Some(Err(e)) ==> r == Some(
                Err::<String, RuntimeError>(e),
            ),
            spec_print(self@, fuel as nat) matches Some(Ok(s)) ==> (r matches Some(Ok(st))
                && st@ == s),
    {
        let mut out: Vec<char> = Vec::new();
        match self.to_string_helper(&mut out, fuel) {
            None => None,
            Some(Err(e)) => Some(Err(e)),
            Some(Ok(u)) => Some(Ok(chars_to_string(&out))),
        }
    }
}

} // verus!

verus! {

/// The human-readable text of a runtime error, quoting the source line for a
/// type mismatch.
pub open spec fn runtime_error_message(e: RuntimeError) -> Seq<char> {
    match e {
        RuntimeError::OutOfBounds => "list index out of bounds"@,
        RuntimeError::ResolvingInfiniteList => "Cannot resolve infinite list"@,
        RuntimeError::MismatchedTypes(k, line) => match k {
            MismatchKind::AddNumberAndList => "Cannot add number and list (line "@ + dec_nat(
                line as int,
            ) + ")"@,
            MismatchKind::SubtractOrIndexWithList => "Cannot subtract or index with list (line "@
                + dec_nat(line as int) + ")"@,
            MismatchKind::MapNumber => "Attempt to map number on line "@ + dec_nat(line as int),
        },
    }
}

impl RuntimeError {
    /// The error's message text.
    pub fn message(&self) -> (r: String)
        ensures
            r@ == runtime_error_message(*self),
    {
        let mut out: Vec<char> = Vec::new();
        match self {
            RuntimeError::OutOfBounds => {
                push_str_chars(&mut out, "list index out of bounds");
            },
            RuntimeError::ResolvingInfiniteList => {
                push_str_chars(&mut out, "Cannot resolve infinite list");
            },
            RuntimeError::MismatchedTypes(k, line) => {
                match k {
                    MismatchKind::AddNumberAndList => {
                        push_str_chars(&mut out, "Cannot add number and list (line ");
                    },
                    MismatchKind::SubtractOrIndexWithList => {
                        push_str_chars(&mut out, "Cannot subtract or index with list (line ");
                    },
                    MismatchKind::MapNumber => {
                        push_str_chars(&mut out, "Attempt to map number on line ");
                    },
                }
                push_dec_u64(&mut out, *line as u64);
                match k {
                    MismatchKind::MapNumber => {},
                    _ => {
                        push_str_chars(&mut out, ")");
                    },
                }
                proof {
                    assert(out@ =~= runtime_error_message(*self));
                }
            },
        }
        chars_to_string(&out)
    }
}

} // verus!

verus! {

/// The human-readable text of a parse error, quoting the line and column
/// where one is meaningful.
pub open spec fn parse_error_message(e: crate::errors::ParseError) -> Seq<char> {
    match e {
        crate::errors::ParseError::InvalidCharacter(c, line, col) =>
            "Invalid Character Error - found invalid character '"@ + seq![c] + "' at "@ + dec_nat(
                line as int,
            ) + ":"@ + dec_nat(col as int),
        crate::errors::ParseError::UnexpectedEOF => "Unexpected EOF"@,
        crate::errors::ParseError::NumberParseError(line, col) =>
            "Number Parse Error - failed to parse number at "@ + dec_nat(line as int) + ":"@
                + dec_nat(col as int),
        crate::errors::ParseError::SyntaxError(k, line, col) => "Syntax Error - "@ + (match k {
            crate::errors::SyntaxErrorKind::NumberNotLeading => "found number not leading expression at "@,
            crate::errors::SyntaxErrorKind::InvalidGroup => "invalid bracket group at "@,
        }) + dec_nat(line as int) + ":"@ + dec_nat(col as int),
        crate::errors::ParseError::EmptyFile => "Empty File"@,
    }
}

impl crate::errors::ParseError {
    /// The error's message text.
    pub fn message(&self) -> (r: String)
        ensures
            r@ == parse_error_message(*self),
    {
        let mut out: Vec<char> = Vec::new();
        match self {
            crate::errors::ParseError::InvalidCharacter(c, line, col) => {
                push_str_chars(&mut out, "Invalid Character Error - found invalid character '");
                out.push(*c);
                push_str_chars(&mut out, "' at ");
                push_dec_u64(&mut out, *line as u64);
                push_str_chars(&mut out, ":");
                push_dec_u64(&mut out, *col as u64);
            },
            crate::errors::ParseError::UnexpectedEOF => {
                push_str_chars(&mut out, "Unexpected EOF");
            },
            crate::errors::ParseError::NumberParseError(line, col) => {
                push_str_chars(&mut out, "Number Parse Error - failed to parse number at ");
                push_dec_u64(&mut out, *line as u64);
                push_str_chars(&mut out, ":");
                push_dec_u64(&mut out, *col as u64);
            },
            crate::errors::ParseError::SyntaxError(k, line, col) => {
                push_str_chars(&mut out, "Syntax Error - ");
                match k {
                    crate::errors::SyntaxErrorKind::NumberNotLeading => {
                        push_str_chars(&mut out, "found number not leading expression at ");
                    },
                    crate::errors::SyntaxErrorKind::InvalidGroup => {
                        push_str_chars(&mut out, "invalid bracket group at ");
                    },
                }
                push_dec_u64(&mut out, *line as u64);
                push_str_chars(&mut out, ":");
                push_dec_u64(&mut out, *col as u64);
            },
            crate::errors::ParseError::EmptyFile => {
                push_str_chars(&mut out, "Empty File");
            },
        }
        proof {
            assert(out@ =~= parse_error_message(*self));
        }
        chars_to_string(&out)
    }
}

} // verus!
