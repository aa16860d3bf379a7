//! Error taxonomy of the interpreter: parse-time errors and runtime errors.
//!
//! Every error carries plain data (the offending character, the source line
//! and column, or the kind of type mismatch), so contracts can state exactly
//! which error a function returns on which input.
use vstd::prelude::*;

verus! {

/// Why a bracketed group or a number was rejected by the parser.
#[derive(Debug, Clone, Copy, PartialEq, Eq)]
pub enum SyntaxErrorKind {
    /// A run of digits ended while the current scope already held an
    /// expression: numbers may only lead a scope.
    NumberNotLeading,
    /// A bracketed group whose opener/closer/body combination encodes no
    /// operator (for example `(]` with an empty body, or `(5)` with no
    /// preceding expression).
    InvalidGroup,
}

/// Errors produced while turning source text into a `ParseTree`.
///
/// Line and column counters start at 1; the column is the position of the
/// offending character (for `SyntaxError` on a group, of its opening bracket).
#[derive(Debug, Clone, Copy, PartialEq, Eq)]
pub enum ParseError {
    /// A character outside the grammar (not a digit, bracket, `#`, or
    /// whitespace), with the character and its line and column.
    InvalidCharacter(char, u32, u32),
    /// An open bracket was never closed.
    UnexpectedEOF,
    /// A digit run does not fit in a signed 64-bit integer; carries the line
    /// and the column of the first digit.
    NumberParseError(u32, u32),
    /// A bracket combination or number placement that the grammar rejects.
    SyntaxError(SyntaxErrorKind, u32, u32),
    /// The source produced no expression at all.
    EmptyFile,
}

/// Which operator was applied to operands of the wrong shapes.
#[derive(Debug, Clone, Copy, PartialEq, Eq)]
pub enum MismatchKind {
    /// `Addition` applied to one number and one list.
    AddNumberAndList,
    /// `IndexSubtraction` where the second operand is a list.
    SubtractOrIndexWithList,
    /// `Map` whose source evaluates to a number.
    MapNumber,
}

/// Errors produced while evaluating a `ParseTree`.
#[derive(Debug, Clone, Copy, PartialEq, Eq)]
pub enum RuntimeError {
    /// An index outside the bounds of a finite list, or a list length that
    /// does not fit in a signed 64-bit integer.
    OutOfBounds,
    /// The length of an infinite (induction) list was demanded, or such a
    /// list was forced for output.
    ResolvingInfiniteList,
    /// Operands of the wrong shapes, with the source line of the operator.
    MismatchedTypes(MismatchKind, u32),
}

} // verus!
