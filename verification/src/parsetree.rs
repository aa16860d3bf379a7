//! The abstract syntax of the language: a closed set of node kinds, each
//! remembering the source line it began on.
use vstd::prelude::*;

verus! {

/// One node of the parsed expression tree.
///
/// The same bracket pair encodes a different operator depending on whether a
/// preceding sub-expression exists and whether the group has a body, so the
/// tree - not the token stream - is the meaningful output of the parser.
#[derive(Debug, PartialEq, Eq)]
pub enum ParseTree {
    /// A decimal integer literal.
    Number { n: i64, line: u32 },
    /// `()` with no preceding expression: the program's external input.
    Input { line: u32 },
    /// `[]` with no preceding expression: an empty list.
    EmptyList { line: u32 },
    /// `prev()`: the length of a list, or the absolute value of a number.
    Length { arg: Box<ParseTree>, line: u32 },
    /// `prev[]`: a one-element list holding the value of `prev`.
    Encapsulate { arg: Box<ParseTree>, line: u32 },
    /// `prev(body)`: numeric sum, or lazy list concatenation.
    Addition { arg1: Box<ParseTree>, arg2: Box<ParseTree>, line: u32 },
    /// `prev[body]`: numeric difference, or list indexing.
    IndexSubtraction { arg1: Box<ParseTree>, arg2: Box<ParseTree>, line: u32 },
    /// `prev(body]`: the infinite list obtained by iterating `body` on the
    /// value of `prev`.
    Induction { arg1: Box<ParseTree>, arg2: Box<ParseTree>, line: u32 },
    /// `prev[body)`: the lazy list applying `body` to each element of `prev`.
    Mapping { arg1: Box<ParseTree>, arg2: Box<ParseTree>, line: u32 },
}

impl ParseTree {
    /// A structurally equal copy of the tree; list values capture the
    /// sub-trees they need by value, so the evaluator copies them here.
    pub fn duplicate(&self) -> (r: ParseTree)
        ensures
            r == *self,
        decreases self,
    {
        match self {
            ParseTree::Number { n, line } => ParseTree::Number { n: *n, line: *line },
            ParseTree::Input { line } => ParseTree::Input { line: *line },
            ParseTree::EmptyList { line } => ParseTree::EmptyList { line: *line },
            ParseTree::Length { arg, line } => ParseTree::Length {
                arg: Box::new(arg.duplicate()),
                line: *line,
            },
            ParseTree::Encapsulate { arg, line } => ParseTree::Encapsulate {
                arg: Box::new(arg.duplicate()),
                line: *line,
            },
            ParseTree::Addition { arg1, arg2, line } => ParseTree::Addition {
                arg1: Box::new(arg1.duplicate()),
                arg2: Box::new(arg2.duplicate()),
                line: *line,
            },
            ParseTree::IndexSubtraction { arg1, arg2, line } => ParseTree::IndexSubtraction {
                arg1: Box::new(arg1.duplicate()),
                arg2: Box::new(arg2.duplicate()),
                line: *line,
            },
            ParseTree::Induction { arg1, arg2, line } => ParseTree::Induction {
                arg1: Box::new(arg1.duplicate()),
                arg2: Box::new(arg2.duplicate()),
                line: *line,
            },
            ParseTree::Mapping { arg1, arg2, line } => ParseTree::Mapping {
                arg1: Box::new(arg1.duplicate()),
                arg2: Box::new(arg2.duplicate()),
                line: *line,
            },
        }
    }
}

} // verus!

// The parser: a single left-to-right scan over the characters, with an
// explicit stack of enclosing bracket groups. The scan is specified by
// `spec_scan`, a recursive function consuming one character per step, and the
// executable parser is proved to return exactly its value.
use crate::errors::ParseError;
use crate::errors::SyntaxErrorKind;

verus! {

/// One suspended bracket group: the expression accumulated before its opening
/// bracket, the opening bracket itself, and the bracket's position.
pub struct ScanFrame {
    pub acc: Option<ParseTree>,
    pub opener: char,
    pub line: u32,
    pub col: u32,
}

/// The whole state of the scan between two characters.
#[verifier::ext_equal]
pub ghost struct ScanState {
    pub stack: Seq<ScanFrame>,
    pub acc: Option<ParseTree>,
    pub innumber: bool,
    pub numberstart: int,
    pub numcol: u32,
    pub incomment: bool,
    pub line: u32,
    pub col: u32,
}

/// A line or column counter one further on; the counters saturate instead of
/// wrapping.
pub open spec fn bump(x: u32) -> u32 {
    if x == u32::MAX {
        x
    } else {
        (x + 1) as u32
    }
}

/// Whether `c` is Unicode whitespace (the `White_Space` property), which the
/// grammar ignores.
pub open spec fn is_space_char(c: char) -> bool {
    let u = c as u32;
    (9 <= u && u <= 13) || u == 32 || u == 0x85 || u == 0xA0 || u == 0x1680 || (0x2000 <= u && u
        <= 0x200A) || u == 0x2028 || u == 0x2029 || u == 0x202F || u == 0x205F || u == 0x3000
}

/// Whether `c` is a decimal digit.
pub open spec fn is_digit_char(c: char) -> bool {
    48 <= c as u32 && c as u32 <= 57
}

/// The numeric value of a digit character.
pub open spec fn digit_val(c: char) -> int {
    c as u32 - 48
}

/// The value of the digit run `s[start..end]`, read left to right.
pub open spec fn digits_val(s: Seq<char>, start: int, end: int) -> int
    decreases end - start,
{
    if end <= start {
        0
    } else {
        digits_val(s, start, end - 1) * 10 + digit_val(s[end - 1])
    }
}

/// A digit run's value is non-negative and grows with the run.
pub proof fn lemma_digits_val_mono(s: Seq<char>, start: int, k: int, m: int)
    requires
        start <= k <= m <= s.len(),
        forall|j: int| start <= j < m ==> is_digit_char(#[trigger] s[j]),
    ensures
        0 <= digits_val(s, start, k) <= digits_val(s, start, m),
    decreases m - start,
{
    if m <= start {
    } else if k == m {
        lemma_digits_val_mono(s, start, m - 1, m - 1);
    } else {
        lemma_digits_val_mono(s, start, k, m - 1);
    }
}

/// What the digit run `s[start..end]` parses to: the number it spells, at the
/// given position, or an error when it does not fit in an `i64`.
pub open spec fn spec_parse_number(s: Seq<char>, start: int, end: int, line: u32, numcol: u32) -> Result<
    ParseTree,
    ParseError,
> {
    if digits_val(s, start, end) > i64::MAX {
        Err(ParseError::NumberParseError(line, numcol))
    } else {
        Ok(ParseTree::Number { n: digits_val(s, start, end) as i64, line })
    }
}

/// The operator a bracketed group encodes, from the opener, the closer,
/// whether a preceding expression exists, and whether the group has a body;
/// combinations outside the table are syntax errors at the opener's position.
pub open spec fn spec_combine_group(
    opener: char,
    closer: char,
    prev: Option<ParseTree>,
    body: Option<ParseTree>,
    oline: u32,
    ocol: u32,
) -> Result<ParseTree, ParseError> {
    match prev {
        None => match body {
            None => {
                if opener == '(' && closer == ')' {
                    Ok(ParseTree::Input { line: oline })
                } else if opener == '[' && closer == ']' {
                    Ok(ParseTree::EmptyList { line: oline })
                } else {
                    Err(ParseError::SyntaxError(SyntaxErrorKind::InvalidGroup, oline, ocol))
                }
            },
            Some(_) => Err(ParseError::SyntaxError(SyntaxErrorKind::InvalidGroup, oline, ocol)),
        },
        Some(p) => match body {
            None => {
                if opener == '(' && closer == ')' {
                    Ok(ParseTree::Length { arg: Box::new(p), line: oline })
                } else if opener == '[' && closer == ']' {
                    Ok(ParseTree::Encapsulate { arg: Box::new(p), line: oline })
                } else {
                    Err(ParseError::SyntaxError(SyntaxErrorKind::InvalidGroup, oline, ocol))
                }
            },
            Some(b) => {
                if opener == '(' && closer == ')' {
                    Ok(ParseTree::Addition { arg1: Box::new(p), arg2: Box::new(b), line: oline })
                } else if opener == '[' && closer == ']' {
                    Ok(
                        ParseTree::IndexSubtraction {
                            arg1: Box::new(p),
                            arg2: Box::new(b),
                            line: oline,
                        },
                    )
                } else if opener == '(' && closer == ']' {
                    Ok(ParseTree::Induction { arg1: Box::new(p), arg2: Box::new(b), line: oline })
                } else if opener == '[' && closer == ')' {
                    Ok(ParseTree::Mapping { arg1: Box::new(p), arg2: Box::new(b), line: oline })
                } else {
                    Err(ParseError::SyntaxError(SyntaxErrorKind::InvalidGroup, oline, ocol))
                }
            },
        },
    }
}

/// The position after reading `c`: a newline starts the next line at column 1,
/// any other character moves one column on.
pub open spec fn advance_line(line: u32, c: char) -> u32 {
    if c == '\n' {
        bump(line)
    } else {
        line
    }
}

/// The column after reading `c`.
pub open spec fn advance_col(col: u32, c: char) -> u32 {
    if c == '\n' {
        1
    } else {
        bump(col)
    }
}

/// The scan state at the start of a parse.
pub open spec fn init_scan(line: u32, col: u32) -> ScanState {
    ScanState {
        stack: Seq::empty(),
        acc: None,
        innumber: false,
        numberstart: 0,
        numcol: 1,
        incomment: false,
        line,
        col,
    }
}

/// The result of scanning `s` from position `i` in state `st`: the expression
/// accumulated when the input (or the enclosing group) ends, or the first
/// parse error. One character is consumed per step.
pub open spec fn spec_scan(s: Seq<char>, i: int, st: ScanState) -> Result<
    Option<ParseTree>,
    ParseError,
>
    decreases s.len() - i,
{
    if i < 0 || i >= s.len() {
        if st.innumber {
            if st.acc is Some {
                Err(ParseError::SyntaxError(SyntaxErrorKind::NumberNotLeading, st.line, st.col))
            } else {
                match spec_parse_number(s, st.numberstart, s.len() as int, st.line, st.numcol) {
                    Err(e) => Err(e),
                    Ok(t) => {
                        if st.stack.len() > 0 {
                            Err(ParseError::UnexpectedEOF)
                        } else {
                            Ok(Some(t))
                        }
                    },
                }
            }
        } else {
            if st.stack.len() > 0 {
                Err(ParseError::UnexpectedEOF)
            } else {
                Ok(st.acc)
            }
        }
    } else {
        let c = s[i];
        if st.incomment && c != '\n' {
            spec_scan(
                s,
                i + 1,
                ScanState { col: bump(st.col), ..st },
            )
        } else if c == '#' {
            if st.innumber {
                if st.acc is Some {
                    Err(
                        ParseError::SyntaxError(SyntaxErrorKind::NumberNotLeading, st.line, st.col),
                    )
                } else {
                    match spec_parse_number(s, st.numberstart, i, st.line, st.numcol) {
                        Err(e) => Err(e),
                        Ok(t) => spec_scan(
                            s,
                            i + 1,
                            ScanState {
                                acc: Some(t),
                                innumber: false,
                                incomment: true,
                                col: bump(st.col),
                                ..st
                            },
                        ),
                    }
                }
            } else {
                spec_scan(
                    s,
                    i + 1,
                    ScanState { incomment: true, col: bump(st.col), ..st },
                )
            }
        } else {
            let st0 = ScanState { incomment: false, ..st };
            if !is_space_char(c) && !is_digit_char(c) && c != '(' && c != ')' && c != '[' && c
                != ']' {
                Err(ParseError::InvalidCharacter(c, st0.line, st0.col))
            } else if is_digit_char(c) {
                let st1 = if st0.innumber {
                    st0
                } else {
                    ScanState { innumber: true, numberstart: i, numcol: st0.col, ..st0 }
                };
                spec_scan(
                    s,
                    i + 1,
                    ScanState {
                        line: advance_line(st1.line, c),
                        col: advance_col(st1.col, c),
                        ..st1
                    },
                )
            } else if st0.innumber && st0.acc is Some {
                Err(ParseError::SyntaxError(SyntaxErrorKind::NumberNotLeading, st0.line, st0.col))
            } else {
                let finished: Result<Option<ParseTree>, ParseError> = if st0.innumber {
                    match spec_parse_number(s, st0.numberstart, i, st0.line, st0.numcol) {
                        Err(e) => Err(e),
                        Ok(t) => Ok(Some(t)),
                    }
                } else {
                    Ok(st0.acc)
                };
                match finished {
                    Err(e) => Err(e),
                    Ok(acc1) => {
                        let st1 = ScanState { acc: acc1, innumber: false, ..st0 };
                        if c == '(' || c == '[' {
                            let fr = ScanFrame { acc: st1.acc, opener: c, line: st1.line, col: st1.col };
                            spec_scan(
                                s,
                                i + 1,
                                ScanState {
                                    stack: st1.stack.push(fr),
                                    acc: None,
                                    line: advance_line(st1.line, c),
                                    col: advance_col(st1.col, c),
                                    ..st1
                                },
                            )
                        } else if c == ')' || c == ']' {
                            if st1.stack.len() == 0 {
                                Ok(st1.acc)
                            } else {
                                let fr = st1.stack.last();
                                match spec_combine_group(
                                    fr.opener,
                                    c,
                                    fr.acc,
                                    st1.acc,
                                    fr.line,
                                    fr.col,
                                ) {
                                    Err(e) => Err(e),
                                    Ok(t) => spec_scan(
                                        s,
                                        i + 1,
                                        ScanState {
                                            stack: st1.stack.drop_last(),
                                            acc: Some(t),
                                            line: advance_line(st1.line, c),
                                            col: advance_col(st1.col, c),
                                            ..st1
                                        },
                                    ),
                                }
                            }
                        } else {
                            spec_scan(
                                s,
                                i + 1,
                                ScanState {
                                    line: advance_line(st1.line, c),
                                    col: advance_col(st1.col, c),
                                    ..st1
                                },
                            )
                        }
                    },
                }
            }
        }
    }
}

/// What parsing a whole source yields: the expression, or the first error;
/// a source producing no expression is an `EmptyFile` error.
pub open spec fn spec_parse(s: Seq<char>) -> Result<ParseTree, ParseError> {
    match spec_scan(s, 0, init_scan(1, 1)) {
        Err(e) => Err(e),
        Ok(None) => Err(ParseError::EmptyFile),
        Ok(Some(t)) => Ok(t),
    }
}

} // verus!

verus! {

/// Whether `c` is Unicode whitespace.
fn is_space(c: char) -> (r: bool)
    ensures
        r == is_space_char(c),
{
    let u = c as u32;
    (9 <= u && u <= 13) || u == 32 || u == 0x85 || u == 0xA0 || u == 0x1680 || (0x2000 <= u && u
        <= 0x200A) || u == 0x2028 || u == 0x2029 || u == 0x202F || u == 0x205F || u == 0x3000
}

/// The counter one further on, saturating.
fn bump_u32(x: u32) -> (r: u32)
    ensures
        r == bump(x),
{
    if x == u32::MAX {
        x
    } else {
        x + 1
    }
}

/// Reads the digit run `chars[start..end]` as a `Number` node, or reports
/// that it does not fit in an `i64`.
fn parse_number(chars: &Vec<char>, start: usize, end: usize, line: u32, numcol: u32) -> (r:
    Result<ParseTree, ParseError>)
    requires
        start <= end <= chars@.len(),
        forall|j: int| start <= j < end ==> is_digit_char(#[trigger] chars@[j]),
    ensures
        r == spec_parse_number(chars@, start as int, end as int, line, numcol),
{
    let mut acc: i64 = 0;
    let mut k: usize = start;
    while k < end
        invariant
            start <= k <= end <= chars@.len(),
            forall|j: int| start <= j < end ==> is_digit_char(#[trigger] chars@[j]),
            0 <= acc,
            acc as int == digits_val(chars@, start as int, k as int),
        decreases end - k,
    {
        let c = chars[k];
        let d = (c as u32) - 48;
        let next = match acc.checked_mul(10) {
            None => None,
            Some(m) => m.checked_add(d as i64),
        };
        match next {
            None => {
                proof {
                    lemma_digits_val_mono(chars@, start as int, k as int + 1, end as int);
                }
                return Err(ParseError::NumberParseError(line, numcol));
            },
            Some(v) => {
                proof {
                    lemma_digits_val_mono(chars@, start as int, k as int, k as int + 1);
                }
                acc = v;
                k = k + 1;
            },
        }
    }
    Ok(ParseTree::Number { n: acc, line })
}

/// The operator a closed bracket group encodes; see `spec_combine_group`.
fn combine_group(
    opener: char,
    closer: char,
    prev: Option<ParseTree>,
    body: Option<ParseTree>,
    oline: u32,
    ocol: u32,
) -> (r: Result<ParseTree, ParseError>)
    ensures
        r == spec_combine_group(opener, closer, prev, body, oline, ocol),
{
    match prev {
        None => match body {
            None => {
                if opener == '(' && closer == ')' {
                    Ok(ParseTree::Input { line: oline })
                } else if opener == '[' && closer == ']' {
                    Ok(ParseTree::EmptyList { line: oline })
                } else {
                    Err(ParseError::SyntaxError(SyntaxErrorKind::InvalidGroup, oline, ocol))
                }
            },
            Some(_) => Err(ParseError::SyntaxError(SyntaxErrorKind::InvalidGroup, oline, ocol)),
        },
        Some(p) => match body {
            None => {
                if opener == '(' && closer == ')' {
                    Ok(ParseTree::Length { arg: Box::new(p), line: oline })
                } else if opener == '[' && closer == ']' {
                    Ok(ParseTree::Encapsulate { arg: Box::new(p), line: oline })
                } else {
                    Err(ParseError::SyntaxError(SyntaxErrorKind::InvalidGroup, oline, ocol))
                }
            },
            Some(b) => {
                if opener == '(' && closer == ')' {
                    Ok(ParseTree::Addition { arg1: Box::new(p), arg2: Box::new(b), line: oline })
                } else if opener == '[' && closer == ']' {
                    Ok(
                        ParseTree::IndexSubtraction {
                            arg1: Box::new(p),
                            arg2: Box::new(b),
                            line: oline,
                        },
                    )
                } else if opener == '(' && closer == ']' {
                    Ok(ParseTree::Induction { arg1: Box::new(p), arg2: Box::new(b), line: oline })
                } else if opener == '[' && closer == ')' {
                    Ok(ParseTree::Mapping { arg1: Box::new(p), arg2: Box::new(b), line: oline })
                } else {
                    Err(ParseError::SyntaxError(SyntaxErrorKind::InvalidGroup, oline, ocol))
                }
            },
        },
    }
}

/// The scanner: the source as characters, the next character to read, and the
/// position it sits at.
pub struct Parser {
    pub chars: Vec<char>,
    pub char_i: usize,
    pub linenum: u32,
    pub colnum: u32,
}

impl Parser {
    /// A scanner at the start of `s`.
    pub fn new(s: &str) -> (r: Parser)
        ensures
            r.chars@ == s@,
            r.char_i == 0,
            r.linenum == 1,
            r.colnum == 1,
    {
        let mut chars: Vec<char> = Vec::new();
        crate::render::push_str_chars(&mut chars, s);
        Parser { chars, char_i: 0, linenum: 1, colnum: 1 }
    }

    /// Scans from the current position to the end of the input or the first
    /// unconsumed closing bracket, and returns the expression accumulated, or
    /// the first parse error.
    pub fn parse(&mut self) -> (r: Result<Option<ParseTree>, ParseError>)
        ensures
            r == spec_scan(
                old(self).chars@,
                old(self).char_i as int,
                init_scan(old(self).linenum, old(self).colnum),
            ),
            final(self).chars@ == old(self).chars@,
    {
        let ghost s = self.chars@;
        let ghost i0 = self.char_i as int;
        let ghost st0 = init_scan(self.linenum, self.colnum);
        let mut stack: Vec<ScanFrame> = Vec::new();
        let mut acc: Option<ParseTree> = None;
        let mut innumber: bool = false;
        let mut numberstart: usize = 0;
        let mut numcol: u32 = 1;
        let mut incomment: bool = false;
        let mut i: usize = self.char_i;
        let mut line: u32 = self.linenum;
        let mut col: u32 = self.colnum;
        let n = self.chars.len();
        if i > n {
            i = n;
        }
        while i < n
            invariant
                i <= n,
                n == self.chars@.len(),
                s == self.chars@,
                s == old(self).chars@,
                i0 == old(self).char_i as int,
                st0 == init_scan(old(self).linenum, old(self).colnum),
                incomment ==> !innumber,
                innumber ==> numberstart < i,
                innumber ==> forall|j: int|
                    numberstart <= j < i ==> is_digit_char(#[trigger] s[j]),
                spec_scan(s, i0, st0) == spec_scan(
                    s,
                    i as int,
                    ScanState {
                        stack: stack@,
                        acc: acc,
                        innumber: innumber,
                        numberstart: numberstart as int,
                        numcol: numcol,
                        incomment: incomment,
                        line: line,
                        col: col,
                    },
                ),
            decreases n - i,
        {
            let ghost prev_st = ScanState {
                stack: stack@,
                acc: acc,
                innumber: innumber,
                numberstart: numberstart as int,
                numcol: numcol,
                incomment: incomment,
                line: line,
                col: col,
            };
            let c = self.chars[i];
            if incomment && c != '\n' {
                col = bump_u32(col);
                i = i + 1;
                continue;
            }
            if c == '#' {
                if innumber {
                    if acc.is_some() {
                        return Err(
                            ParseError::SyntaxError(SyntaxErrorKind::NumberNotLeading, line, col),
                        );
                    }
                    match parse_number(&self.chars, numberstart, i, line, numcol) {
                        Err(e) => {
                            return Err(e);
                        },
                        Ok(t) => {
                            acc = Some(t);
                            innumber = false;
                        },
                    }
                }
                incomment = true;
                col = bump_u32(col);
                i = i + 1;
                continue;
            }
            incomment = false;
            let u = c as u32;
            let digit = 48 <= u && u <= 57;
            if !is_space(c) && !digit && c != '(' && c != ')' && c != '[' && c != ']' {
                return Err(ParseError::InvalidCharacter(c, line, col));
            }
            if digit {
                if !innumber {
                    innumber = true;
                    numberstart = i;
                    numcol = col;
                }
                line = if c == '\n' {
                    bump_u32(line)
                } else {
                    line
                };
                col = if c == '\n' {
                    1
                } else {
                    bump_u32(col)
                };
                i = i + 1;
                continue;
            }
            if innumber {
                if acc.is_some() {
                    return Err(
                        ParseError::SyntaxError(SyntaxErrorKind::NumberNotLeading, line, col),
                    );
                }
                match parse_number(&self.chars, numberstart, i, line, numcol) {
                    Err(e) => {
                        return Err(e);
                    },
                    Ok(t) => {
                        acc = Some(t);
                        innumber = false;
                    },
                }
            }
            if c == '(' || c == '[' {
                stack.push(ScanFrame { acc, opener: c, line, col });
                acc = None;
            } else if c == ')' || c == ']' {
                if stack.len() == 0 {
                    return Ok(acc);
                }
                let fr = match stack.pop() {
                    Some(fr) => fr,
                    None => unreached(),
                };
                match combine_group(fr.opener, c, fr.acc, acc, fr.line, fr.col) {
                    Err(e) => {
                        return Err(e);
                    },
                    Ok(t) => {
                        acc = Some(t);
                    },
                }
                proof {
                    assert(stack@ =~= prev_st.stack.drop_last());
                }
            }
            line = if c == '\n' {
                bump_u32(line)
            } else {
                line
            };
            col = if c == '\n' {
                1
            } else {
                bump_u32(col)
            };
            i = i + 1;
        }
        if innumber {
            if acc.is_some() {
                return Err(ParseError::SyntaxError(SyntaxErrorKind::NumberNotLeading, line, col));
            }
            match parse_number(&self.chars, numberstart, n, line, numcol) {
                Err(e) => {
                    return Err(e);
                },
                Ok(t) => {
                    if stack.len() > 0 {
                        return Err(ParseError::UnexpectedEOF);
                    }
                    return Ok(Some(t));
                },
            }
        }
        if stack.len() > 0 {
            return Err(ParseError::UnexpectedEOF);
        }
        Ok(acc)
    }
}

/// Parses a whole source text into its expression tree.
pub fn parse(expr: &str) -> (r: Result<ParseTree, ParseError>)
    ensures
        r == spec_parse(expr@),
{
    let mut parser = Parser::new(expr);
    match parser.parse() {
        Err(e) => Err(e),
        Ok(None) => Err(ParseError::EmptyFile),
        Ok(Some(t)) => Ok(t),
    }
}

} // verus!
