//! Tokens: the spanned units the lexer produces and the parser consumes.

use vstd::prelude::*;

use crate::Span;

verus! {

/// An operator character sequence recognised by the lexer.
#[derive(Clone, Copy, PartialEq, Eq, Structural, Debug)]
pub enum Op {
    /// `+`
    Plus,
    /// `-`
    Minus,
    /// `*`
    Times,
    /// `//` (floor-division syntax; no single-slash token exists)
    Div,
    /// `%`
    Mod,
    /// `=`
    Asgn,
    /// `**`
    Expt,
    /// `+=`
    AddEq,
}

/// The kind of a token: a closed tagged union.
#[derive(PartialEq, Eq, Debug)]
pub enum TokenKind {
    NewLine,
    Comma,
    Ident(String),
    Number(u32),
    Str(String),
    LParen,
    RParen,
    Op(Op),
}

/// The mathematical shape of a [`TokenKind`]: identifier and string
/// contents are sequences of characters.
pub enum TokenKindV {
    NewLine,
    Comma,
    Ident(Seq<char>),
    Number(u32),
    Str(Seq<char>),
    LParen,
    RParen,
    Op(Op),
}

impl View for TokenKind {
    type V = TokenKindV;

    open spec fn view(&self) -> TokenKindV {
        match self {
            TokenKind::NewLine => TokenKindV::NewLine,
            TokenKind::Comma => TokenKindV::Comma,
            TokenKind::Ident(s) => TokenKindV::Ident(s@),
            TokenKind::Number(n) => TokenKindV::Number(*n),
            TokenKind::Str(s) => TokenKindV::Str(s@),
            TokenKind::LParen => TokenKindV::LParen,
            TokenKind::RParen => TokenKindV::RParen,
            TokenKind::Op(o) => TokenKindV::Op(*o),
        }
    }
}

impl Clone for TokenKind {
    /// Cloning a token kind preserves its shape and contents exactly.
    fn clone(&self) -> (r: Self)
        ensures
            r == *self,
    {
        match self {
            TokenKind::NewLine => TokenKind::NewLine,
            TokenKind::Comma => TokenKind::Comma,
            TokenKind::Ident(s) => TokenKind::Ident(s.clone()),
            TokenKind::Number(n) => TokenKind::Number(*n),
            TokenKind::Str(s) => TokenKind::Str(s.clone()),
            TokenKind::LParen => TokenKind::LParen,
            TokenKind::RParen => TokenKind::RParen,
            TokenKind::Op(o) => TokenKind::Op(*o),
        }
    }
}

/// A token: a kind and the span of source text it covers.
#[derive(PartialEq, Eq, Debug)]
pub struct Token {
    pub kind: TokenKind,
    pub span: Span,
}

/// The mathematical shape of a [`Token`].
pub struct TokenV {
    pub kind: TokenKindV,
    pub span: Span,
}

impl View for Token {
    type V = TokenV;

    open spec fn view(&self) -> TokenV {
        TokenV { kind: self.kind@, span: self.span }
    }
}

impl Clone for Token {
    /// Cloning a token preserves it exactly.
    fn clone(&self) -> (r: Self)
        ensures
            r == *self,
    {
        Token { kind: self.kind.clone(), span: self.span }
    }
}

/// Relies on `alloc::string::String::push`: appends the given character to
/// the end of the string.
pub assume_specification[ String::push ](s: &mut String, c: char)
    ensures
        final(s)@ == old(s)@.push(c),
;

/// Compare two string slices character by character.
pub fn str_eq(a: &str, b: &str) -> (r: bool)
    ensures
        r == (a@ == b@),
{
    let na = a.unicode_len();
    let nb = b.unicode_len();
    if na != nb {
        proof {
            assert(a@ != b@) by {
                assert(a@.len() != b@.len());
            }
        }
        return false;
    }
    for i in 0..na
        invariant
            na == a@.len(),
            na == b@.len(),
            forall|j: int| 0 <= j < i ==> a@[j] == b@[j],
    {
        if a.get_char(i) != b.get_char(i) {
            return false;
        }
    }
    proof {
        assert(a@ =~= b@);
    }
    true
}

/// Decide whether two token kinds are equal, contents included.
pub fn kind_eq(a: &TokenKind, b: &TokenKind) -> (r: bool)
    ensures
        r == (a@ == b@),
{
    match (a, b) {
        (TokenKind::NewLine, TokenKind::NewLine) => true,
        (TokenKind::Comma, TokenKind::Comma) => true,
        (TokenKind::Ident(x), TokenKind::Ident(y)) => str_eq(x.as_str(), y.as_str()),
        (TokenKind::Number(x), TokenKind::Number(y)) => x == y,
        (TokenKind::Str(x), TokenKind::Str(y)) => str_eq(x.as_str(), y.as_str()),
        (TokenKind::LParen, TokenKind::LParen) => true,
        (TokenKind::RParen, TokenKind::RParen) => true,
        (TokenKind::Op(x), TokenKind::Op(y)) => x == y,
        _ => false,
    }
}

} // verus!
