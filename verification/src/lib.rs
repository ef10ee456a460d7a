//! A small interpreter front end for a line-oriented scripting language:
//! a lexer that turns source text into located tokens, a precedence-climbing
//! parser that builds an abstract syntax tree with exact source spans, and a
//! tree-walking evaluator that executes that tree against a mutable variable
//! environment.

use vstd::prelude::*;

pub mod ast;
pub mod context;
pub mod error;
pub mod eval;
pub mod io;
pub mod lexer;
pub mod num;
pub mod parse;
pub mod stream;
pub mod token;

verus! {

/// A source location: 1-based row and column.
#[derive(Clone, Copy, PartialEq, Eq, Structural, Debug)]
pub struct Loc {
    pub row: usize,
    pub col: usize,
}

/// An interval of source text, from the location of its first character to
/// the location of its last character (inclusive on both ends).
#[derive(Clone, Copy, PartialEq, Eq, Structural, Debug)]
pub struct Span {
    pub start: Loc,
    pub end: Loc,
}

/// Lexicographic order on locations: first by row, then by column.
pub open spec fn loc_le(a: Loc, b: Loc) -> bool {
    a.row < b.row || (a.row == b.row && a.col <= b.col)
}

/// A well-formed span starts no later than it ends.
pub open spec fn wf_span(s: Span) -> bool {
    loc_le(s.start, s.end)
}

/// The origin location, used as the position of empty constructs.
pub open spec fn spec_origin() -> Loc {
    Loc { row: 1, col: 1 }
}

impl Span {
    /// The single-point span covering one location.
    pub fn at(loc: Loc) -> (r: Span)
        ensures
            r == (Span { start: loc, end: loc }),
            wf_span(r),
    {
        Span { start: loc, end: loc }
    }
}

} // verus!

