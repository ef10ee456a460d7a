//! The token stream: an owned, append-only sequence of tokens with a
//! consuming read cursor.
//!
//! The cursor supports lookahead-1 (`current`), a consuming advance, an
//! expect-and-consume with a structured mismatch failure (`eat`), and an
//! owning read (`take`). Taking a token advances the cursor without
//! removing elements, so positional lookups stay O(1).

use vstd::prelude::*;

use crate::error::{Error, ErrorV, Kind, KindV};
use crate::token::{kind_eq, Token, TokenKind, TokenV};
use crate::{spec_origin, Loc, Span};

verus! {

/// The location just past the last token, or the origin if there is none.
pub open spec fn spec_eof_loc(toks: Seq<TokenV>) -> Loc {
    if toks.len() == 0 {
        spec_origin()
    } else {
        toks.last().span.end
    }
}

/// A lexed token sequence with a read cursor.
#[derive(Debug)]
pub struct TokenStream {
    tokens: Vec<Token>,
    index: usize,
}

/// The mathematical shape of a [`TokenStream`]: the token sequence and the
/// cursor position.
pub struct TokenStreamV {
    pub toks: Seq<TokenV>,
    pub index: int,
}

impl View for TokenStream {
    type V = TokenStreamV;

    closed spec fn view(&self) -> TokenStreamV {
        TokenStreamV {
            toks: self.tokens@.map_values(|t: Token| t@),
            index: self.index as int,
        }
    }
}

impl TokenStream {
    /// An empty stream with the cursor at the start.
    pub fn new() -> (r: Self)
        ensures
            r@.toks.len() == 0,
            r@.index == 0,
    {
        TokenStream { tokens: Vec::new(), index: 0 }
    }

    /// Append a token at the end; the cursor does not move.
    pub fn append(&mut self, tkn: Token)
        ensures
            final(self)@.toks == old(self)@.toks.push(tkn@),
            final(self)@.index == old(self)@.index,
    {
        self.tokens.push(tkn);
    }

    /// Reset the cursor to the beginning of the tokens.
    pub fn reset(&mut self)
        ensures
            final(self)@.toks == old(self)@.toks,
            final(self)@.index == 0,
    {
        self.index = 0;
    }

    /// Peek at the current token without consuming it; `None` at the end.
    pub fn current(&self) -> (r: Option<&Token>)
        ensures
            self@.index >= 0,
            match r {
                Some(t) => self@.index < self@.toks.len() && t@ == self@.toks[self@.index],
                None => self@.index >= self@.toks.len(),
            },
    {
        if self.index < self.tokens.len() {
            Some(&self.tokens[self.index])
        } else {
            None
        }
    }

    /// Peek at the current token, or fail with `UnexpectedEof` at the
    /// location just past the last token.
    pub fn current_or(&self) -> (r: Result<&Token, Error>)
        ensures
            self@.index >= 0,
            match r {
                Ok(t) => self@.index < self@.toks.len() && t@ == self@.toks[self@.index],
                Err(e) => self@.index >= self@.toks.len() && e@ == (ErrorV {
                    kind: KindV::UnexpectedEof,
                    span: Span { start: spec_eof_loc(self@.toks), end: spec_eof_loc(self@.toks) },
                }),
            },
    {
        if self.index < self.tokens.len() {
            Ok(&self.tokens[self.index])
        } else {
            let loc = self.eof();
            Err(Error { kind: Kind::UnexpectedEof, span: Span { start: loc, end: loc } })
        }
    }

    // The location of the end of the stream.
    fn eof(&self) -> (r: Loc)
        ensures
            r == spec_eof_loc(self@.toks),
    {
        if self.tokens.len() == 0 {
            Loc { row: 1, col: 1 }
        } else {
            self.tokens[self.tokens.len() - 1].span.end
        }
    }

    /// Advance the cursor past the current token, which must exist.
    pub fn advance(&mut self)
        requires
            old(self)@.index < old(self)@.toks.len(),
        ensures
            old(self)@.index >= 0,
            final(self)@.toks == old(self)@.toks,
            final(self)@.index == old(self)@.index + 1,
    {
        // reading the length as a usize bounds the cursor, which sits
        // strictly below it, so the increment cannot overflow
        let n = self.tokens.len();
        proof {
            assert(old(self)@.toks.len() == old(self).tokens@.len());
            assert(self.index < n);
        }
        self.index = self.index + 1;
    }

    /// Consume a token of exactly the target kind. On a mismatch, fail with
    /// a `Parser` error recording the expected and the actual token; at the
    /// end of the stream, fail with `UnexpectedEof`. The cursor moves only
    /// on success.
    pub fn eat(&mut self, target: &TokenKind) -> (r: Result<(), Error>)
        ensures
            old(self)@.index >= 0,
            final(self)@.toks == old(self)@.toks,
            ({
                let s = old(self)@;
                if s.index < s.toks.len() {
                    if s.toks[s.index].kind == target@ {
                        &&& r is Ok
                        &&& final(self)@.index == s.index + 1
                    } else {
                        &&& r matches Err(e) && e@ == (ErrorV {
                            kind: KindV::Parser(Some((target@, s.toks[s.index].kind))),
                            span: s.toks[s.index].span,
                        })
                        &&& final(self)@.index == s.index
                    }
                } else {
                    &&& r matches Err(e) && e@ == (ErrorV {
                        kind: KindV::UnexpectedEof,
                        span: Span { start: spec_eof_loc(s.toks), end: spec_eof_loc(s.toks) },
                    })
                    &&& final(self)@.index == s.index
                }
            }),
    {
        match self.current_or() {
            Err(e) => Err(e),
            Ok(tkn) => {
                if kind_eq(&tkn.kind, target) {
                    self.advance();
                    Ok(())
                } else {
                    let err = Error {
                        span: tkn.span,
                        kind: Kind::Parser(Some((target.clone(), tkn.kind.clone()))),
                    };
                    Err(err)
                }
            },
        }
    }

    /// Take an owned copy of the current token, which must exist, and
    /// advance past it.
    pub fn take(&mut self) -> (r: Token)
        requires
            old(self)@.index < old(self)@.toks.len(),
        ensures
            old(self)@.index >= 0,
            r@ == old(self)@.toks[old(self)@.index],
            final(self)@.toks == old(self)@.toks,
            final(self)@.index == old(self)@.index + 1,
    {
        let tkn = self.tokens[self.index].clone();
        self.advance();
        tkn
    }
}

/// The cursor never sits at a negative position.
pub proof fn lemma_index_nonneg(ts: &TokenStream)
    ensures
        ts@.index >= 0,
{
}

impl Default for TokenStream {
    /// The default stream is empty, with the cursor at the start.
    fn default() -> (r: Self)
        ensures
            r@.toks.len() == 0,
            r@.index == 0,
    {
        TokenStream::new()
    }
}

} // verus!
