//! The structured error threaded through lexing, parsing and evaluation.
//!
//! Every failure carries a [`Span`] pinpointing the offending source
//! location; no operation of the library panics on malformed input.

use vstd::prelude::*;

use crate::token::{TokenKind, TokenKindV};
use crate::Span;

verus! {

/// What went wrong.
#[derive(PartialEq, Eq, Debug)]
pub enum Kind {
    /// A malformed character sequence: an unsupported character, an
    /// unterminated string literal, or a two-character operator whose
    /// second character never arrived.
    Tokenization,
    /// An unexpected token. Where the parser knows which token it wanted,
    /// it records the expected and the actual token for diagnostics.
    Parser(Option<(TokenKind, TokenKind)>),
    /// The cursor was exhausted where a token was required.
    UnexpectedEof,
    /// A runtime failure: an undefined variable reference, a division by
    /// zero, or malformed interactive input.
    Interpretation,
}

/// The mathematical shape of a [`Kind`].
pub enum KindV {
    Tokenization,
    Parser(Option<(TokenKindV, TokenKindV)>),
    UnexpectedEof,
    Interpretation,
}

impl View for Kind {
    type V = KindV;

    open spec fn view(&self) -> KindV {
        match self {
            Kind::Tokenization => KindV::Tokenization,
            Kind::Parser(None) => KindV::Parser(None),
            Kind::Parser(Some((expected, got))) => KindV::Parser(
                Some((expected@, got@)),
            ),
            Kind::UnexpectedEof => KindV::UnexpectedEof,
            Kind::Interpretation => KindV::Interpretation,
        }
    }
}

/// A structured error: a kind and the span of the offending source text.
#[derive(PartialEq, Eq, Debug)]
pub struct Error {
    pub kind: Kind,
    pub span: Span,
}

/// The mathematical shape of an [`Error`].
pub struct ErrorV {
    pub kind: KindV,
    pub span: Span,
}

impl View for Error {
    type V = ErrorV;

    open spec fn view(&self) -> ErrorV {
        ErrorV { kind: self.kind@, span: self.span }
    }
}

} // verus!
