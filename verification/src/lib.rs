//! A verified interpreter core for a tiny language whose whole syntax is
//! decimal integers and the four bracket characters `(`, `)`, `[`, `]`.
//!
//! The same bracket pair encodes a different operator depending on whether a
//! preceding sub-expression exists and whether the group has a body. Programs
//! denote a single expression over numbers and (possibly infinite) lazy
//! lists, evaluated against one external input value.
//!
//! Evaluation of an arbitrary program may diverge (the language permits
//! unbounded recursion through induction lists), so every evaluating
//! operation takes an explicit fuel bound and returns `None` when the bound
//! is exhausted; the contracts pin each result to a fuel-indexed spec-level
//! semantics, so any `Some` answer is the answer.
pub mod codec;
pub mod errors;
pub mod evaluate;
pub mod laws;
pub mod parsetree;
pub mod render;
pub mod semantics;
pub mod value;
