//! The parser: recursive descent over the token cursor for statements and
//! blocks, with precedence climbing for expressions.
//!
//! A program is one block of zero or more statements, each followed by a
//! newline token that is consumed when present. Statement dispatch looks
//! one token ahead: the identifier `pass` gives the empty statement,
//! `print` a print statement, and anything else is parsed as an
//! assignment. Expressions climb binding powers: `+` and `-` bind (1, 2),
//! `*`, `//` and `%` bind (3, 4), and `**` binds (6, 5), making it
//! right-associative where the others associate left.
//!
//! Every parsed node is proved well formed: its span starts no later than
//! it ends, and it lies within the tokens it was parsed from, whenever the
//! token stream is in scanning order ([`spans_ordered`]).

use vstd::prelude::*;

use crate::ast::{
    binop_of, spec_bp, spec_span_expn, wf_blck, wf_expn, wf_stmt, BinOp, Blck, Expn, ExpnV, Leaf,
    LeafData, LeafDataV, LeafV, Prgm, Stmt, StmtData, StmtDataV, StmtV,
};
use crate::context::Context;
use crate::error::{Error, ErrorV, Kind, KindV};
use crate::io::Io;
use crate::lexer::{spans_ordered, spec_lex, Tokenizer};
use crate::stream::{spec_eof_loc, TokenStream};
use crate::token::{str_eq, Op, TokenKind, TokenKindV, TokenV};
use crate::{loc_le, wf_span, Span};

verus! {

/// The error of reading past the last token.
pub open spec fn eof_err(toks: Seq<TokenV>) -> ErrorV {
    ErrorV {
        kind: KindV::UnexpectedEof,
        span: Span { start: spec_eof_loc(toks), end: spec_eof_loc(toks) },
    }
}

/// What consuming one token of exactly the given kind yields: the next
/// cursor position, or the mismatch error the cursor reports.
pub open spec fn spec_eat(toks: Seq<TokenV>, i: int, kind: TokenKindV) -> Result<int, ErrorV> {
    if i < toks.len() {
        if toks[i].kind == kind {
            Ok(i + 1)
        } else {
            Err(
                ErrorV {
                    kind: KindV::Parser(Some((kind, toks[i].kind))),
                    span: toks[i].span,
                },
            )
        }
    } else {
        Err(eof_err(toks))
    }
}

/// What parsing `input(...)` from the cursor yields, the `input`
/// identifier itself already consumed: the leaf and the position after the
/// closing parenthesis, or the first failure. The leaf's span runs from
/// the opening parenthesis to the string literal.
pub open spec fn spec_parse_inpt(toks: Seq<TokenV>, i: int) -> Result<(LeafV, int), ErrorV> {
    if i >= toks.len() {
        Err(eof_err(toks))
    } else {
        let start = toks[i].span.start;
        match spec_eat(toks, i, TokenKindV::LParen) {
            Err(e) => Err(e),
            Ok(j) => if j >= toks.len() {
                Err(eof_err(toks))
            } else {
                match toks[j].kind {
                    TokenKindV::Str(p) => {
                        let end = toks[j].span.end;
                        match spec_eat(toks, j + 1, TokenKindV::RParen) {
                            Err(e) => Err(e),
                            Ok(k) => Ok(
                                (LeafV { data: LeafDataV::Inpt(p), span: Span { start, end } }, k),
                            ),
                        }
                    },
                    _ => Err(ErrorV { kind: KindV::Parser(None), span: toks[j].span }),
                }
            },
        }
    }
}

/// What parsing a leaf from the cursor yields: a name for an identifier
/// other than `input`, the dedicated sub-parse for `input`, a literal for
/// a number, and a parser error at any other token.
pub open spec fn spec_parse_leaf(toks: Seq<TokenV>, i: int) -> Result<(LeafV, int), ErrorV> {
    if i >= toks.len() {
        Err(eof_err(toks))
    } else {
        match toks[i].kind {
            TokenKindV::Ident(s) => if s == "input"@ {
                spec_parse_inpt(toks, i + 1)
            } else {
                Ok((LeafV { data: LeafDataV::Name(s), span: toks[i].span }, i + 1))
            },
            TokenKindV::Number(n) => Ok(
                (LeafV { data: LeafDataV::Nmbr(n), span: toks[i].span }, i + 1),
            ),
            _ => Err(ErrorV { kind: KindV::Parser(None), span: toks[i].span }),
        }
    }
}

/// A parsed expression lies within the tokens it came from: it is well
/// formed, starts no earlier than the first consumed token, and ends no
/// later than the last consumed token.
pub open spec fn expn_in_range(toks: Seq<TokenV>, i0: int, i1: int, e: ExpnV) -> bool {
    &&& wf_expn(e)
    &&& loc_le(toks[i0].span.start, spec_span_expn(e).start)
    &&& loc_le(spec_span_expn(e).end, toks[i1 - 1].span.end)
}

/// A parsed statement lies within the tokens it came from: it is well
/// formed, starts exactly at the first consumed token, and ends no later
/// than the last consumed token.
pub open spec fn stmt_in_range(toks: Seq<TokenV>, i0: int, i1: int, s: StmtV) -> bool {
    &&& wf_stmt(s)
    &&& s.span.start == toks[i0].span.start
    &&& loc_le(s.span.end, toks[i1 - 1].span.end)
}

/// One token of an ordered stream has a well-formed span.
proof fn lemma_ordered_wf(toks: Seq<TokenV>, i: int)
    requires
        spans_ordered(toks),
        0 <= i < toks.len(),
    ensures
        wf_span(toks[i].span),
{
}

/// An earlier token of an ordered stream ends no later than a later one
/// starts.
proof fn lemma_ordered_pair(toks: Seq<TokenV>, i: int, j: int)
    requires
        spans_ordered(toks),
        0 <= i < j < toks.len(),
    ensures
        loc_le(toks[i].span.end, toks[j].span.start),
        loc_le(toks[i].span.end, toks[j].span.end),
        loc_le(toks[i].span.start, toks[j].span.start),
{
    assert(wf_span(toks[i].span));
    assert(wf_span(toks[j].span));
}

/// A successful leaf parse stays within the tokens it consumed.
proof fn lemma_spec_parse_leaf_range(toks: Seq<TokenV>, i: int)
    requires
        spans_ordered(toks),
        0 <= i,
    ensures
        match spec_parse_leaf(toks, i) {
            Ok(p) => i < p.1 <= toks.len() && expn_in_range(toks, i, p.1, ExpnV::Leaf(p.0)),
            Err(_) => true,
        },
{
    match spec_parse_leaf(toks, i) {
        Ok(p) => {
            match toks[i].kind {
                TokenKindV::Ident(s) => {
                    if s == "input"@ {
                        // the leaf spans from the parenthesis at i + 1 to
                        // the string literal at i + 2
                        assert(toks[i + 1].kind == TokenKindV::LParen);
                        assert(loc_le(toks[i].span.start, toks[i + 1].span.start));
                        assert(loc_le(toks[i + 1].span.end, toks[i + 2].span.start));
                        assert(loc_le(toks[i + 2].span.end, toks[i + 3].span.end));
                    }
                },
                _ => {},
            }
        },
        Err(_) => {},
    }
}

/// A successful leaf parse consumes at least one token and stays within
/// the input.
proof fn lemma_spec_parse_leaf_progress(toks: Seq<TokenV>, i: int)
    requires
        0 <= i,
    ensures
        spec_parse_leaf(toks, i) matches Ok(p) ==> i < p.1 <= toks.len(),
{
}

/// Enough fuel for the fuelled expression parser to unfold completely
/// from position `i`.
pub open spec fn expn_fuel_ok(toks: Seq<TokenV>, i: int, fuel: nat) -> bool {
    fuel >= 2 * (toks.len() - i) + 2
}

/// Enough fuel for the fuelled climbing loop to unfold completely from
/// position `i`.
pub open spec fn climb_fuel_ok(toks: Seq<TokenV>, i: int, fuel: nat) -> bool {
    fuel >= 2 * (toks.len() - i) + 1
}

/// The canonical sufficient fuel for parsing an expression at `i`.
pub open spec fn expn_fuel(toks: Seq<TokenV>, i: int) -> nat
    recommends
        0 <= i <= toks.len(),
{
    (2 * (toks.len() - i) + 2) as nat
}

/// The canonical sufficient fuel for the climbing loop at `i`.
pub open spec fn climb_fuel(toks: Seq<TokenV>, i: int) -> nat
    recommends
        0 <= i <= toks.len(),
{
    (2 * (toks.len() - i) + 1) as nat
}

/// What parsing an expression from the cursor yields: the left operand
/// (a parenthesized expression at binding power zero, or a leaf), folded
/// into binary operations by [`spec_climb`]. The fuel only bounds the
/// recursion: any two sufficient fuels give the same result
/// ([`lemma_parse_expn_fuel`]).
pub open spec fn spec_parse_expn(toks: Seq<TokenV>, i: int, min_bp: u8, fuel: nat) -> Result<
    (ExpnV, int),
    ErrorV,
>
    decreases fuel,
{
    if fuel == 0 {
        Err(eof_err(toks))
    } else {
        let lhs_step: Result<(ExpnV, int), ErrorV> = if i >= toks.len() {
            Err(eof_err(toks))
        } else if toks[i].kind is LParen {
            match spec_parse_expn(toks, i + 1, 0u8, (fuel - 1) as nat) {
                Ok(p) => match spec_eat(toks, p.1, TokenKindV::RParen) {
                    Ok(k) => Ok((p.0, k)),
                    Err(e) => Err(e),
                },
                Err(e) => Err(e),
            }
        } else if toks[i].kind is Ident || toks[i].kind is Number {
            match spec_parse_leaf(toks, i) {
                Ok(p) => Ok((ExpnV::Leaf(p.0), p.1)),
                Err(e) => Err(e),
            }
        } else {
            Err(ErrorV { kind: KindV::Parser(None), span: toks[i].span })
        };
        match lhs_step {
            Err(e) => Err(e),
            Ok(p) => spec_climb(toks, p.1, min_bp, p.0, (fuel - 1) as nat),
        }
    }
}

/// The precedence-climbing loop: starting from a parsed left operand at
/// `i`, fold in every infix operator whose left binding power reaches
/// `min_bp`. A newline ends the expression and is consumed; a closing
/// parenthesis ends it and is left for the caller; an operator below
/// `min_bp` ends it at the backtrack point; any other token is a parser
/// error.
pub open spec fn spec_climb(toks: Seq<TokenV>, i: int, min_bp: u8, lhs: ExpnV, fuel: nat) -> Result<
    (ExpnV, int),
    ErrorV,
>
    decreases fuel,
{
    if fuel == 0 {
        Err(eof_err(toks))
    } else if i >= toks.len() {
        Ok((lhs, i))
    } else {
        match toks[i].kind {
            TokenKindV::NewLine => Ok((lhs, i + 1)),
            TokenKindV::RParen => Ok((lhs, i)),
            TokenKindV::Op(o) => match binop_of(o) {
                None => Err(ErrorV { kind: KindV::Parser(None), span: toks[i].span }),
                Some(b) => if spec_bp(b).0 < min_bp {
                    Ok((lhs, i))
                } else {
                    match spec_parse_expn(toks, i + 1, spec_bp(b).1, (fuel - 1) as nat) {
                        Err(e) => Err(e),
                        Ok(p) => spec_climb(
                            toks,
                            p.1,
                            min_bp,
                            ExpnV::BinOp { left: Box::new(lhs), right: Box::new(p.0), op: b },
                            (fuel - 1) as nat,
                        ),
                    }
                },
            },
            _ => Err(ErrorV { kind: KindV::Parser(None), span: toks[i].span }),
        }
    }
}

/// A successful expression parse consumes at least one token and stays
/// within the input.
pub proof fn lemma_parse_expn_progress(toks: Seq<TokenV>, i: int, min_bp: u8, fuel: nat)
    requires
        0 <= i,
    ensures
        spec_parse_expn(toks, i, min_bp, fuel) matches Ok(p) ==> i < p.1 <= toks.len(),
    decreases fuel,
{
    if fuel > 0 && i < toks.len() {
        if toks[i].kind is LParen {
            lemma_parse_expn_progress(toks, i + 1, 0u8, (fuel - 1) as nat);
        }
        lemma_spec_parse_leaf_progress(toks, i);
        let lhs_step: Result<(ExpnV, int), ErrorV> = if toks[i].kind is LParen {
            match spec_parse_expn(toks, i + 1, 0u8, (fuel - 1) as nat) {
                Ok(p) => match spec_eat(toks, p.1, TokenKindV::RParen) {
                    Ok(k) => Ok((p.0, k)),
                    Err(e) => Err(e),
                },
                Err(e) => Err(e),
            }
        } else if toks[i].kind is Ident || toks[i].kind is Number {
            match spec_parse_leaf(toks, i) {
                Ok(p) => Ok((ExpnV::Leaf(p.0), p.1)),
                Err(e) => Err(e),
            }
        } else {
            Err(ErrorV { kind: KindV::Parser(None), span: toks[i].span })
        };
        match lhs_step {
            Ok(p) => {
                lemma_climb_progress(toks, p.1, min_bp, p.0, (fuel - 1) as nat);
            },
            Err(_) => {},
        }
    }
}

/// The climbing loop never moves the cursor back, and stays within the
/// input.
pub proof fn lemma_climb_progress(toks: Seq<TokenV>, i: int, min_bp: u8, lhs: ExpnV, fuel: nat)
    requires
        0 <= i <= toks.len(),
    ensures
        spec_climb(toks, i, min_bp, lhs, fuel) matches Ok(p) ==> i <= p.1 <= toks.len(),
    decreases fuel,
{
    if fuel > 0 && i < toks.len() {
        match toks[i].kind {
            TokenKindV::Op(o) => match binop_of(o) {
                Some(b) => if spec_bp(b).0 >= min_bp {
                    lemma_parse_expn_progress(toks, i + 1, spec_bp(b).1, (fuel - 1) as nat);
                    match spec_parse_expn(toks, i + 1, spec_bp(b).1, (fuel - 1) as nat) {
                        Ok(p) => {
                            lemma_climb_progress(
                                toks,
                                p.1,
                                min_bp,
                                ExpnV::BinOp {
                                    left: Box::new(lhs),
                                    right: Box::new(p.0),
                                    op: b,
                                },
                                (fuel - 1) as nat,
                            );
                        },
                        Err(_) => {},
                    }
                } else {
                },
                None => {},
            },
            _ => {},
        }
    }
}

/// Any two sufficient fuels give the fuelled expression parser the same
/// result: the fuel is a recursion bound, not part of the meaning.
pub proof fn lemma_parse_expn_fuel(toks: Seq<TokenV>, i: int, min_bp: u8, f1: nat, f2: nat)
    requires
        0 <= i,
        expn_fuel_ok(toks, i, f1),
        expn_fuel_ok(toks, i, f2),
    ensures
        spec_parse_expn(toks, i, min_bp, f1) == spec_parse_expn(toks, i, min_bp, f2),
    decreases f1 + f2,
{
    if i >= toks.len() {
        // both fail at once (or, with fuel zero, with the same error)
    } else {
        if toks[i].kind is LParen {
            lemma_parse_expn_fuel(toks, i + 1, 0u8, (f1 - 1) as nat, (f2 - 1) as nat);
            lemma_parse_expn_progress(toks, i + 1, 0u8, (f1 - 1) as nat);
        }
        lemma_spec_parse_leaf_progress(toks, i);
        let lhs_step: Result<(ExpnV, int), ErrorV> = if toks[i].kind is LParen {
            match spec_parse_expn(toks, i + 1, 0u8, (f1 - 1) as nat) {
                Ok(p) => match spec_eat(toks, p.1, TokenKindV::RParen) {
                    Ok(k) => Ok((p.0, k)),
                    Err(e) => Err(e),
                },
                Err(e) => Err(e),
            }
        } else if toks[i].kind is Ident || toks[i].kind is Number {
            match spec_parse_leaf(toks, i) {
                Ok(p) => Ok((ExpnV::Leaf(p.0), p.1)),
                Err(e) => Err(e),
            }
        } else {
            Err(ErrorV { kind: KindV::Parser(None), span: toks[i].span })
        };
        match lhs_step {
            Ok(p) => {
                lemma_climb_fuel(toks, p.1, min_bp, p.0, (f1 - 1) as nat, (f2 - 1) as nat);
            },
            Err(_) => {},
        }
    }
}

/// Any two sufficient fuels give the climbing loop the same result.
pub proof fn lemma_climb_fuel(
    toks: Seq<TokenV>,
    i: int,
    min_bp: u8,
    lhs: ExpnV,
    f1: nat,
    f2: nat,
)
    requires
        0 <= i <= toks.len(),
        climb_fuel_ok(toks, i, f1),
        climb_fuel_ok(toks, i, f2),
    ensures
        spec_climb(toks, i, min_bp, lhs, f1) == spec_climb(toks, i, min_bp, lhs, f2),
    decreases f1 + f2,
{
    if i < toks.len() {
        match toks[i].kind {
            TokenKindV::Op(o) => match binop_of(o) {
                Some(b) => if spec_bp(b).0 >= min_bp {
                    lemma_parse_expn_fuel(toks, i + 1, spec_bp(b).1, (f1 - 1) as nat, (f2
                        - 1) as nat);
                    lemma_parse_expn_progress(toks, i + 1, spec_bp(b).1, (f1 - 1) as nat);
                    match spec_parse_expn(toks, i + 1, spec_bp(b).1, (f1 - 1) as nat) {
                        Ok(p) => {
                            lemma_climb_fuel(
                                toks,
                                p.1,
                                min_bp,
                                ExpnV::BinOp {
                                    left: Box::new(lhs),
                                    right: Box::new(p.0),
                                    op: b,
                                },
                                (f1 - 1) as nat,
                                (f2 - 1) as nat,
                            );
                        },
                        Err(_) => {},
                    }
                } else {
                },
                None => {},
            },
            _ => {},
        }
    }
}

/// What parsing an assignment statement yields: a name, then `=` and the
/// right-hand side, or `+=`, which desugars to adding the right-hand side
/// to the name; the synthesized name leaf carries the span of the `+=`
/// token. The statement's span runs from the name to the end of the
/// right-hand side.
pub open spec fn spec_parse_asgn(toks: Seq<TokenV>, i: int) -> Result<(StmtV, int), ErrorV> {
    if i >= toks.len() {
        Err(eof_err(toks))
    } else {
        match toks[i].kind {
            TokenKindV::Ident(nm) => if i + 1 >= toks.len() {
                Err(eof_err(toks))
            } else if toks[i + 1].kind == TokenKindV::Op(Op::AddEq) {
                match spec_parse_expn(toks, i + 2, 0u8, expn_fuel(toks, i + 2)) {
                    Err(e) => Err(e),
                    Ok(p) => {
                        let e2 = ExpnV::BinOp {
                            left: Box::new(
                                ExpnV::Leaf(
                                    LeafV { data: LeafDataV::Name(nm), span: toks[i + 1].span },
                                ),
                            ),
                            right: Box::new(p.0),
                            op: BinOp::Plus,
                        };
                        Ok(
                            (
                                StmtV {
                                    span: Span {
                                        start: toks[i].span.start,
                                        end: spec_span_expn(e2).end,
                                    },
                                    data: StmtDataV::Asgn(nm, e2),
                                },
                                p.1,
                            ),
                        )
                    },
                }
            } else {
                match spec_eat(toks, i + 1, TokenKindV::Op(Op::Asgn)) {
                    Err(e) => Err(e),
                    Ok(k) => match spec_parse_expn(toks, k, 0u8, expn_fuel(toks, k)) {
                        Err(e) => Err(e),
                        Ok(p) => Ok(
                            (
                                StmtV {
                                    span: Span {
                                        start: toks[i].span.start,
                                        end: spec_span_expn(p.0).end,
                                    },
                                    data: StmtDataV::Asgn(nm, p.0),
                                },
                                p.1,
                            ),
                        ),
                    },
                }
            },
            _ => Err(ErrorV { kind: KindV::Parser(None), span: toks[i].span }),
        }
    }
}

/// What parsing a `print(...)` statement yields: the `print` identifier,
/// an opening parenthesis, the expression, and the closing parenthesis.
/// The statement's span runs from `print` to the closing parenthesis.
pub open spec fn spec_parse_prnt(toks: Seq<TokenV>, i: int) -> Result<(StmtV, int), ErrorV> {
    if i >= toks.len() {
        Err(eof_err(toks))
    } else {
        let start = toks[i].span.start;
        match spec_eat(toks, i, TokenKindV::Ident("print"@)) {
            Err(e) => Err(e),
            Ok(j) => match spec_eat(toks, j, TokenKindV::LParen) {
                Err(e) => Err(e),
                Ok(k) => match spec_parse_expn(toks, k, 0u8, expn_fuel(toks, k)) {
                    Err(e) => Err(e),
                    Ok(p) => if p.1 >= toks.len() {
                        Err(eof_err(toks))
                    } else {
                        let end = toks[p.1].span.end;
                        match spec_eat(toks, p.1, TokenKindV::RParen) {
                            Err(e) => Err(e),
                            Ok(m) => Ok(
                                (
                                    StmtV { span: Span { start, end }, data: StmtDataV::Prnt(p.0) },
                                    m,
                                ),
                            ),
                        }
                    },
                },
            },
        }
    }
}

/// What parsing a statement yields: lookahead-1 sends the identifier
/// `pass` to the empty statement and `print` to the print form; anything
/// else parses as an assignment.
pub open spec fn spec_parse_stmt(toks: Seq<TokenV>, i: int) -> Result<(StmtV, int), ErrorV> {
    if i >= toks.len() {
        Err(eof_err(toks))
    } else {
        match toks[i].kind {
            TokenKindV::Ident(s) => if s == "pass"@ {
                Ok((StmtV { span: toks[i].span, data: StmtDataV::Pass }, i + 1))
            } else if s == "print"@ {
                spec_parse_prnt(toks, i)
            } else {
                spec_parse_asgn(toks, i)
            },
            _ => spec_parse_asgn(toks, i),
        }
    }
}

/// A successful statement parse consumes at least one token and stays
/// within the input.
pub proof fn lemma_parse_stmt_progress(toks: Seq<TokenV>, i: int)
    requires
        0 <= i,
    ensures
        spec_parse_stmt(toks, i) matches Ok(p) ==> i < p.1 <= toks.len(),
{
    if i < toks.len() {
        lemma_parse_expn_progress(toks, i + 2, 0u8, expn_fuel(toks, i + 2));
        match spec_eat(toks, i + 1, TokenKindV::Op(Op::Asgn)) {
            Ok(k) => {
                lemma_parse_expn_progress(toks, k, 0u8, expn_fuel(toks, k));
            },
            Err(_) => {},
        }
        match spec_eat(toks, i, TokenKindV::Ident("print"@)) {
            Ok(j) => {
                match spec_eat(toks, j, TokenKindV::LParen) {
                    Ok(k) => {
                        lemma_parse_expn_progress(toks, k, 0u8, expn_fuel(toks, k));
                    },
                    Err(_) => {},
                }
            },
            Err(_) => {},
        }
    }
}

/// What parsing a block yields: statements until the cursor is exhausted,
/// each followed by a newline token that is consumed when present.
pub open spec fn spec_parse_block(toks: Seq<TokenV>, i: int) -> Result<(Seq<StmtV>, int), ErrorV>
    decreases toks.len() - i when 0 <= i <= toks.len() via spec_parse_block_dec
{
    if i >= toks.len() {
        Ok((Seq::empty(), i))
    } else {
        match spec_parse_stmt(toks, i) {
            Err(e) => Err(e),
            Ok(p) => {
                let k = if p.1 < toks.len() && toks[p.1].kind is NewLine {
                    p.1 + 1
                } else {
                    p.1
                };
                match spec_parse_block(toks, k) {
                    Err(e) => Err(e),
                    Ok(q) => Ok((seq![p.0] + q.0, q.1)),
                }
            },
        }
    }
}

#[via_fn]
proof fn spec_parse_block_dec(toks: Seq<TokenV>, i: int) {
    lemma_parse_stmt_progress(toks, i);
}

impl Leaf {
    /// Parse the dedicated `input(...)` form, the `input` identifier
    /// itself already consumed, exactly as [`spec_parse_inpt`] describes.
    pub fn parse_inpt(tokens: &mut TokenStream) -> (r: Result<Leaf, Error>)
        ensures
            final(tokens)@.toks == old(tokens)@.toks,
            old(tokens)@.index <= final(tokens)@.index,
            old(tokens)@.index <= old(tokens)@.toks.len() ==> final(tokens)@.index <= old(
                tokens,
            )@.toks.len(),
            ({
                let res = spec_parse_inpt(old(tokens)@.toks, old(tokens)@.index);
                match r {
                    Ok(l) => res matches Ok(p) && p.0 == l@ && p.1 == final(tokens)@.index,
                    Err(e) => res matches Err(ev) && ev == e@,
                }
            }),
    {
        let start = match tokens.current_or() {
            Err(e) => {
                return Err(e);
            },
            Ok(t) => t.span.start,
        };
        match tokens.eat(&TokenKind::LParen) {
            Err(e) => {
                return Err(e);
            },
            Ok(u) => {},
        }
        let (prompt, end) = match tokens.current_or() {
            Err(e) => {
                return Err(e);
            },
            Ok(t) => {
                match &t.kind {
                    TokenKind::Str(s) => (s.clone(), t.span.end),
                    _ => {
                        return Err(Error { kind: Kind::Parser(None), span: t.span });
                    },
                }
            },
        };
        tokens.advance();
        match tokens.eat(&TokenKind::RParen) {
            Err(e) => {
                return Err(e);
            },
            Ok(u) => {},
        }
        Ok(Leaf { data: LeafData::Inpt(prompt), span: Span { start, end } })
    }

    /// Parse a leaf, exactly as [`spec_parse_leaf`] describes.
    pub fn parse(tokens: &mut TokenStream) -> (r: Result<Leaf, Error>)
        ensures
            final(tokens)@.toks == old(tokens)@.toks,
            old(tokens)@.index <= final(tokens)@.index,
            old(tokens)@.index <= old(tokens)@.toks.len() ==> final(tokens)@.index <= old(
                tokens,
            )@.toks.len(),
            ({
                let res = spec_parse_leaf(old(tokens)@.toks, old(tokens)@.index);
                match r {
                    Ok(l) => res matches Ok(p) && p.0 == l@ && p.1 == final(tokens)@.index,
                    Err(e) => res matches Err(ev) && ev == e@,
                }
            }),
    {
        let kind_code: u8 = match tokens.current_or() {
            Err(e) => {
                return Err(e);
            },
            Ok(t) => match &t.kind {
                TokenKind::Ident(s) => {
                    if str_eq(s.as_str(), "input") {
                        0u8
                    } else {
                        1u8
                    }
                },
                TokenKind::Number(n) => 2u8,
                _ => {
                    let err = Error { kind: Kind::Parser(None), span: t.span };
                    return Err(err);
                },
            },
        };
        if kind_code == 0 {
            tokens.advance();
            Self::parse_inpt(tokens)
        } else {
            let tkn = tokens.take();
            let span = tkn.span;
            match tkn.kind {
                TokenKind::Ident(s) => Ok(Leaf { data: LeafData::Name(s), span }),
                TokenKind::Number(n) => Ok(Leaf { data: LeafData::Nmbr(n), span }),
                _ => Err(Error { kind: Kind::Parser(None), span }),
            }
        }
    }
}

impl Expn {
    /// Parse an expression by precedence climbing, never folding an
    /// operator whose left binding power is below `min_bp`. On success the
    /// parsed tree is well formed and lies within the consumed tokens.
    #[verifier::loop_isolation(false)]
    #[verifier::rlimit(60)]
    pub fn parse_impl(tokens: &mut TokenStream, min_bp: u8) -> (r: Result<Expn, Error>)
        ensures
            final(tokens)@.toks == old(tokens)@.toks,
            old(tokens)@.index <= final(tokens)@.index,
            old(tokens)@.index <= old(tokens)@.toks.len() ==> final(tokens)@.index <= old(
                tokens,
            )@.toks.len(),
            r is Ok ==> old(tokens)@.index < final(tokens)@.index,
            (r is Ok && spans_ordered(old(tokens)@.toks) && old(tokens)@.index <= old(
                tokens,
            )@.toks.len()) ==> old(tokens)@.index < old(tokens)@.toks.len() && expn_in_range(
                old(tokens)@.toks,
                old(tokens)@.index,
                final(tokens)@.index,
                r->Ok_0@,
            ),
            old(tokens)@.index <= old(tokens)@.toks.len() ==> ({
                let res = spec_parse_expn(
                    old(tokens)@.toks,
                    old(tokens)@.index,
                    min_bp,
                    expn_fuel(old(tokens)@.toks, old(tokens)@.index),
                );
                match r {
                    Ok(e) => res matches Ok(p) && p.0 == e@ && p.1 == final(tokens)@.index,
                    Err(e) => res matches Err(ev) && ev == e@,
                }
            }),
        decreases old(tokens)@.toks.len() - old(tokens)@.index,
    {
        let ghost toks = tokens@.toks;
        let ghost i0: int = tokens@.index;
        let ghost ordered = spans_ordered(toks) && i0 <= toks.len();
        let ghost fz = expn_fuel(toks, i0);
        let mut span = Span::at(crate::Loc { row: 1, col: 1 });
        let kind_code: u8 = match tokens.current_or() {
            Err(e) => {
                proof {
                    if i0 <= toks.len() {
                        assert(spec_parse_expn(toks, i0, min_bp, fz) == Err::<
                            (ExpnV, int),
                            ErrorV,
                        >(eof_err(toks)));
                    }
                }
                return Err(e);
            },
            Ok(t) => {
                span = t.span;
                match &t.kind {
                    TokenKind::LParen => 0u8,
                    TokenKind::Ident(s) => 1u8,
                    TokenKind::Number(n) => 1u8,
                    _ => 2u8,
                }
            },
        };
        let mut lhs: Expn;
        if kind_code == 0 {
            tokens.advance();
            let inner = match Self::parse_impl(tokens, 0) {
                Ok(e) => e,
                Err(er) => {
                    proof {
                        lemma_parse_expn_fuel(toks, i0 + 1, 0u8, (fz - 1) as nat, expn_fuel(
                            toks,
                            i0 + 1,
                        ));
                    }
                    return Err(er);
                },
            };
            let ghost j: int = tokens@.index;
            proof {
                lemma_parse_expn_fuel(toks, i0 + 1, 0u8, (fz - 1) as nat, expn_fuel(toks, i0 + 1));
            }
            match tokens.eat(&TokenKind::RParen) {
                Err(er) => {
                    return Err(er);
                },
                Ok(u) => {},
            }
            proof {
                lemma_climb_fuel(toks, j + 1, min_bp, inner@, (fz - 1) as nat, climb_fuel(
                    toks,
                    j + 1,
                ));
                if ordered {
                    // the inner expression lies between the parentheses
                    lemma_ordered_wf(toks, i0);
                    lemma_ordered_pair(toks, i0, i0 + 1);
                    lemma_ordered_pair(toks, j - 1, j);
                }
            }
            lhs = inner;
        } else if kind_code == 1 {
            let leaf = match Leaf::parse(tokens) {
                Ok(l) => l,
                Err(er) => {
                    return Err(er);
                },
            };
            let ghost j: int = tokens@.index;
            proof {
                lemma_spec_parse_leaf_progress(toks, i0);
                lemma_climb_fuel(toks, j, min_bp, ExpnV::Leaf(leaf@), (fz - 1) as nat, climb_fuel(
                    toks,
                    j,
                ));
                if ordered {
                    lemma_spec_parse_leaf_range(toks, i0);
                }
            }
            lhs = Expn::Leaf(leaf);
        } else {
            return Err(Error { kind: Kind::Parser(None), span });
        }
        proof {
            assert(spec_climb(toks, tokens@.index, min_bp, lhs@, climb_fuel(toks, tokens@.index))
                == spec_parse_expn(toks, i0, min_bp, fz));
        }
        loop
            invariant
                tokens@.toks == toks,
                i0 < tokens@.index <= toks.len(),
                ordered ==> expn_in_range(toks, i0, tokens@.index, lhs@),
                spec_climb(toks, tokens@.index, min_bp, lhs@, climb_fuel(toks, tokens@.index))
                    == spec_parse_expn(toks, i0, min_bp, fz),
            decreases toks.len() - tokens@.index,
        {
            let ghost cur: int = tokens@.index;
            let mut op_tok: Op = Op::Plus;
            let mut tspan = Span::at(crate::Loc { row: 1, col: 1 });
            let peek_code: u8 = match tokens.current() {
                None => 0u8,
                Some(t) => {
                    tspan = t.span;
                    match &t.kind {
                        TokenKind::NewLine => 1u8,
                        TokenKind::RParen => 2u8,
                        TokenKind::Op(o) => {
                            op_tok = *o;
                            3u8
                        },
                        _ => 4u8,
                    }
                },
            };
            if peek_code == 0 {
                proof {
                    assert(spec_climb(toks, cur, min_bp, lhs@, climb_fuel(toks, cur)) == Ok::<
                        (ExpnV, int),
                        ErrorV,
                    >((lhs@, cur)));
                }
                return Ok(lhs);
            } else if peek_code == 1 {
                let ghost before: int = tokens@.index;
                tokens.advance();
                proof {
                    if ordered {
                        lemma_ordered_pair(toks, before - 1, before);
                    }
                }
                return Ok(lhs);
            } else if peek_code == 2 {
                return Ok(lhs);
            } else if peek_code == 3 {
                let op = match BinOp::from_token(op_tok, tspan) {
                    Ok(b) => b,
                    Err(er) => {
                        return Err(er);
                    },
                };
                let bp = op.bp();
                if bp.0 < min_bp {
                    return Ok(lhs);
                }
                let ghost k: int = tokens@.index;
                tokens.advance();
                proof {
                    lemma_parse_expn_fuel(toks, k + 1, bp.1, (climb_fuel(toks, k) - 1) as nat,
                        expn_fuel(toks, k + 1));
                }
                let rhs = match Self::parse_impl(tokens, bp.1) {
                    Ok(e) => e,
                    Err(er) => {
                        return Err(er);
                    },
                };
                let ghost j2: int = tokens@.index;
                let ghost lhs_prev = lhs@;
                proof {
                    if ordered {
                        // the left operand ends before the operator, which
                        // ends before the right operand starts
                        lemma_ordered_pair(toks, k - 1, k + 1);
                        assert(loc_le(spec_span_expn(lhs@).end, spec_span_expn(rhs@).start));
                    }
                }
                lhs = Expn::BinOp { left: Box::new(lhs), right: Box::new(rhs), op };
                proof {
                    assert(lhs@ == ExpnV::BinOp {
                        left: Box::new(lhs_prev),
                        right: Box::new(rhs@),
                        op,
                    });
                    lemma_climb_fuel(toks, j2, min_bp, lhs@, (climb_fuel(toks, k) - 1) as nat,
                        climb_fuel(toks, j2));
                }
            } else {
                return Err(Error { kind: Kind::Parser(None), span: tspan });
            }
        }
    }

}

impl Stmt {
    /// Parse a statement: lookahead-1 on the current token sends the
    /// identifier `pass` to the empty statement and `print` to the print
    /// form; anything else is parsed as an assignment.
    pub fn parse(tokens: &mut TokenStream) -> (r: Result<Stmt, Error>)
        ensures
            final(tokens)@.toks == old(tokens)@.toks,
            old(tokens)@.index <= final(tokens)@.index,
            old(tokens)@.index <= old(tokens)@.toks.len() ==> final(tokens)@.index <= old(
                tokens,
            )@.toks.len(),
            r is Ok ==> old(tokens)@.index < final(tokens)@.index,
            (r is Ok && spans_ordered(old(tokens)@.toks) && old(tokens)@.index <= old(
                tokens,
            )@.toks.len()) ==> old(tokens)@.index < old(tokens)@.toks.len() && stmt_in_range(
                old(tokens)@.toks,
                old(tokens)@.index,
                final(tokens)@.index,
                r->Ok_0@,
            ),
            old(tokens)@.index <= old(tokens)@.toks.len() ==> ({
                let res = spec_parse_stmt(old(tokens)@.toks, old(tokens)@.index);
                match r {
                    Ok(st) => res matches Ok(p) && p.0 == st@ && p.1 == final(tokens)@.index,
                    Err(e) => res matches Err(ev) && ev == e@,
                }
            }),
            ({
                let toks = old(tokens)@.toks;
                let oi = old(tokens)@.index;
                match r {
                    Ok(st) => oi < toks.len() && match toks[oi].kind {
                        TokenKindV::Ident(s) => {
                            &&& (s == "pass"@ ==> st@.data is Pass && st@.span == toks[oi].span
                                && final(tokens)@.index == oi + 1)
                            &&& (s == "print"@ ==> st@.data is Prnt)
                            &&& (s != "pass"@ && s != "print"@ ==> st@.data is Asgn)
                        },
                        _ => !(st@.data is Pass) && !(st@.data is Prnt),
                    },
                    Err(e) => oi >= toks.len() ==> e@ == eof_err(toks),
                }
            }),
    {
        let ghost toks = tokens@.toks;
        let ghost i0: int = tokens@.index;
        let mut span = Span::at(crate::Loc { row: 1, col: 1 });
        let dispatch: u8 = match tokens.current_or() {
            Err(e) => {
                return Err(e);
            },
            Ok(t) => {
                span = t.span;
                match &t.kind {
                    TokenKind::Ident(s) => {
                        if str_eq(s.as_str(), "pass") {
                            0u8
                        } else if str_eq(s.as_str(), "print") {
                            1u8
                        } else {
                            2u8
                        }
                    },
                    _ => 2u8,
                }
            },
        };
        if dispatch == 0 {
            proof {
                reveal_strlit("pass");
                reveal_strlit("print");
                assert("pass"@.len() == 4);
                assert("print"@.len() == 5);
                assert("pass"@ != "print"@);
                if spans_ordered(toks) {
                    lemma_ordered_wf(toks, i0);
                }
            }
            tokens.advance();
            return Ok(Stmt { span, data: StmtData::Pass });
        } else if dispatch == 1 {
            proof {
                reveal_strlit("pass");
                reveal_strlit("print");
            }
            return Self::parse_prnt(tokens);
        } else {
            proof {
                reveal_strlit("pass");
                reveal_strlit("print");
                assert(match toks[i0].kind {
                    TokenKindV::Ident(s) => s != "pass"@ && s != "print"@,
                    _ => true,
                });
            }
            return Self::parse_asgn(tokens);
        }
    }

    /// Parse a `print(...)` statement from the `print` identifier on. Its
    /// span runs from the `print` keyword to the closing parenthesis.
    pub fn parse_prnt(tokens: &mut TokenStream) -> (r: Result<Stmt, Error>)
        ensures
            final(tokens)@.toks == old(tokens)@.toks,
            old(tokens)@.index <= final(tokens)@.index,
            old(tokens)@.index <= old(tokens)@.toks.len() ==> final(tokens)@.index <= old(
                tokens,
            )@.toks.len(),
            r is Ok ==> old(tokens)@.index < final(tokens)@.index,
            (r is Ok && spans_ordered(old(tokens)@.toks) && old(tokens)@.index <= old(
                tokens,
            )@.toks.len()) ==> old(tokens)@.index < old(tokens)@.toks.len() && stmt_in_range(
                old(tokens)@.toks,
                old(tokens)@.index,
                final(tokens)@.index,
                r->Ok_0@,
            ),
            r matches Ok(st) ==> old(tokens)@.index < old(tokens)@.toks.len() && st@.data is Prnt
                && st@.span.start == old(tokens)@.toks[old(tokens)@.index].span.start,
            old(tokens)@.index <= old(tokens)@.toks.len() ==> ({
                let res = spec_parse_prnt(old(tokens)@.toks, old(tokens)@.index);
                match r {
                    Ok(st) => res matches Ok(p) && p.0 == st@ && p.1 == final(tokens)@.index,
                    Err(e) => res matches Err(ev) && ev == e@,
                }
            }),
    {
        let ghost toks = tokens@.toks;
        let ghost i0: int = tokens@.index;
        let ghost ordered = spans_ordered(toks) && i0 <= toks.len();
        let start = match tokens.current_or() {
            Err(e) => {
                return Err(e);
            },
            Ok(t) => t.span.start,
        };
        let print_kind = TokenKind::Ident(String::from_str("print"));
        match tokens.eat(&print_kind) {
            Err(e) => {
                return Err(e);
            },
            Ok(u) => {},
        }
        match tokens.eat(&TokenKind::LParen) {
            Err(e) => {
                return Err(e);
            },
            Ok(u) => {},
        }
        let expn = match Expn::parse(tokens) {
            Ok(e) => e,
            Err(er) => {
                return Err(er);
            },
        };
        let ghost j = tokens@.index;
        let end = match tokens.current_or() {
            Err(e) => {
                return Err(e);
            },
            Ok(t) => t.span.end,
        };
        match tokens.eat(&TokenKind::RParen) {
            Err(e) => {
                return Err(e);
            },
            Ok(u) => {},
        }
        proof {
            if ordered {
                lemma_ordered_wf(toks, i0);
                lemma_ordered_wf(toks, j);
                lemma_ordered_pair(toks, i0, j);
                crate::ast::lemma_wf_expn_span(expn@);
                lemma_ordered_pair(toks, i0, i0 + 2);
                lemma_ordered_pair(toks, j - 1, j);
            }
        }
        Ok(Stmt { span: Span { start, end }, data: StmtData::Prnt(expn) })
    }

    /// Parse an assignment statement: a name, then either `=` and the
    /// right-hand side, or `+=`, which desugars to adding the right-hand
    /// side to the name. The synthesized name leaf carries the span of the
    /// `+=` token itself.
    pub fn parse_asgn(tokens: &mut TokenStream) -> (r: Result<Stmt, Error>)
        ensures
            final(tokens)@.toks == old(tokens)@.toks,
            old(tokens)@.index <= final(tokens)@.index,
            old(tokens)@.index <= old(tokens)@.toks.len() ==> final(tokens)@.index <= old(
                tokens,
            )@.toks.len(),
            r is Ok ==> old(tokens)@.index < final(tokens)@.index,
            (r is Ok && spans_ordered(old(tokens)@.toks) && old(tokens)@.index <= old(
                tokens,
            )@.toks.len()) ==> old(tokens)@.index < old(tokens)@.toks.len() && stmt_in_range(
                old(tokens)@.toks,
                old(tokens)@.index,
                final(tokens)@.index,
                r->Ok_0@,
            ),
            old(tokens)@.index <= old(tokens)@.toks.len() ==> ({
                let res = spec_parse_asgn(old(tokens)@.toks, old(tokens)@.index);
                match r {
                    Ok(st) => res matches Ok(p) && p.0 == st@ && p.1 == final(tokens)@.index,
                    Err(e) => res matches Err(ev) && ev == e@,
                }
            }),
            ({
                let toks = old(tokens)@.toks;
                let oi = old(tokens)@.index;
                match r {
                    Ok(st) => {
                        &&& oi < toks.len()
                        &&& toks[oi].kind matches TokenKindV::Ident(nm) && ({
                            &&& st@.data matches StmtDataV::Asgn(nm2, e) && nm2 == nm && ({
                                &&& st@.span.start == toks[oi].span.start
                                &&& st@.span.end == spec_span_expn(e).end
                                &&& ((oi + 1 < toks.len() && toks[oi + 1].kind
                                    == TokenKindV::Op(Op::AddEq)) ==> (e matches ExpnV::BinOp {
                                    left,
                                    right,
                                    op,
                                } && op == BinOp::Plus && *left == ExpnV::Leaf(
                                    LeafV {
                                        data: LeafDataV::Name(nm),
                                        span: toks[oi + 1].span,
                                    },
                                )))
                            })
                        })
                    },
                    Err(e) => {
                        &&& (oi >= toks.len() ==> e@ == eof_err(toks))
                        &&& ((oi < toks.len() && !(toks[oi].kind is Ident)) ==> e@ == (ErrorV {
                            kind: KindV::Parser(None),
                            span: toks[oi].span,
                        }))
                    },
                }
            }),
    {
        let ghost toks = tokens@.toks;
        let ghost i0: int = tokens@.index;
        let ghost ordered = spans_ordered(toks) && i0 <= toks.len();
        let (name, name_span) = match tokens.current_or() {
            Err(e) => {
                return Err(e);
            },
            Ok(t) => {
                match &t.kind {
                    TokenKind::Ident(s) => (s.clone(), t.span),
                    _ => {
                        let err = Error { kind: Kind::Parser(None), span: t.span };
                        return Err(err);
                    },
                }
            },
        };
        tokens.advance();
        let is_addeq: bool = match tokens.current_or() {
            Err(e) => {
                return Err(e);
            },
            Ok(t) => match &t.kind {
                TokenKind::Op(o) => match o {
                    Op::AddEq => true,
                    _ => false,
                },
                _ => false,
            },
        };
        let expn: Expn;
        if is_addeq {
            let op_span = match tokens.current_or() {
                Err(e) => {
                    return Err(e);
                },
                Ok(t) => t.span,
            };
            tokens.advance();
            let rhs = match Expn::parse(tokens) {
                Ok(e) => e,
                Err(er) => {
                    return Err(er);
                },
            };
            proof {
                if ordered {
                    lemma_ordered_wf(toks, i0 + 1);
                    lemma_ordered_pair(toks, i0 + 1, i0 + 2);
                }
            }
            let left_leaf = Expn::Leaf(Leaf { data: LeafData::Name(name.clone()), span: op_span });
            proof {
                assert(left_leaf@ == ExpnV::Leaf(
                    LeafV { data: LeafDataV::Name(name@), span: op_span },
                ));
            }
            expn = Expn::BinOp { left: Box::new(left_leaf), right: Box::new(rhs), op: BinOp::Plus };
            proof {
                if ordered {
                    assert(wf_expn(left_leaf@));
                    assert(spec_span_expn(left_leaf@) == op_span);
                    assert(wf_expn(rhs@));
                    assert(loc_le(op_span.end, spec_span_expn(rhs@).start));
                    assert(wf_expn(expn@));
                    assert(spec_span_expn(expn@).start == toks[i0 + 1].span.start);
                }
            }
        } else {
            match tokens.eat(&TokenKind::Op(Op::Asgn)) {
                Err(e) => {
                    return Err(e);
                },
                Ok(u) => {},
            }
            expn = match Expn::parse(tokens) {
                Ok(e) => e,
                Err(er) => {
                    return Err(er);
                },
            };
        }
        let end = expn.span().end;
        proof {
            if ordered {
                lemma_ordered_wf(toks, i0);
                lemma_ordered_wf(toks, i0 + 1);
                lemma_ordered_pair(toks, i0, i0 + 1);
                if i0 + 2 < toks.len() {
                    lemma_ordered_pair(toks, i0 + 1, i0 + 2);
                }
                crate::ast::lemma_wf_expn_span(expn@);
            }
        }
        Ok(Stmt { span: Span { start: name_span.start, end }, data: StmtData::Asgn(name, expn) })
    }
}

impl Blck {
    /// Parse a block: zero or more statements, each followed by a newline
    /// token that is consumed when present, until the cursor is exhausted.
    #[verifier::loop_isolation(false)]
    pub fn parse(tokens: &mut TokenStream) -> (r: Result<Blck, Error>)
        ensures
            final(tokens)@.toks == old(tokens)@.toks,
            old(tokens)@.index <= final(tokens)@.index,
            old(tokens)@.index <= old(tokens)@.toks.len() ==> final(tokens)@.index <= old(
                tokens,
            )@.toks.len(),
            (r is Ok && old(tokens)@.index <= old(tokens)@.toks.len()) ==> final(tokens)@.index
                == old(tokens)@.toks.len(),
            (r is Ok && spans_ordered(old(tokens)@.toks) && old(tokens)@.index <= old(
                tokens,
            )@.toks.len()) ==> wf_blck(r->Ok_0@),
            old(tokens)@.index <= old(tokens)@.toks.len() ==> ({
                let res = spec_parse_block(old(tokens)@.toks, old(tokens)@.index);
                match r {
                    Ok(b) => res matches Ok(p) && p.0 == b@ && p.1 == final(tokens)@.index,
                    Err(e) => res matches Err(ev) && ev == e@,
                }
            }),
    {
        let ghost toks = tokens@.toks;
        let ghost i0: int = tokens@.index;
        let ghost ordered = spans_ordered(toks) && i0 <= toks.len();
        let ghost ok0 = i0 <= toks.len();
        proof {
            crate::stream::lemma_index_nonneg(tokens);
            if ok0 {
                match spec_parse_block(toks, i0) {
                    Ok(q) => {
                        assert(Seq::<StmtV>::empty() + q.0 =~= q.0);
                    },
                    Err(_) => {},
                }
            }
        }
        let mut stmts: Vec<Stmt> = Vec::new();
        loop
            invariant
                tokens@.toks == toks,
                i0 <= tokens@.index,
                i0 <= toks.len() ==> tokens@.index <= toks.len(),
                stmts@.len() > 0 ==> i0 < tokens@.index,
                ordered ==> wf_blck(stmts@.map_values(|s: Stmt| s@)),
                ordered ==> forall|i: int|
                    0 <= i < stmts@.len() ==> loc_le(
                        ((#[trigger] stmts@[i])@).span.end,
                        toks[tokens@.index - 1].span.end,
                    ),
                ok0 ==> match spec_parse_block(toks, tokens@.index) {
                    Ok(q) => spec_parse_block(toks, i0) == Ok::<(Seq<StmtV>, int), ErrorV>(
                        (stmts@.map_values(|s: Stmt| s@) + q.0, q.1),
                    ),
                    Err(e) => spec_parse_block(toks, i0) == Err::<(Seq<StmtV>, int), ErrorV>(e),
                },
            decreases toks.len() + 1 - tokens@.index,
        {
            let more: bool = match tokens.current() {
                Some(t) => true,
                None => false,
            };
            if !more {
                proof {
                    if ok0 {
                        assert(spec_parse_block(toks, tokens@.index) == Ok::<
                            (Seq<StmtV>, int),
                            ErrorV,
                        >((Seq::empty(), tokens@.index)));
                        let views = stmts@.map_values(|s: Stmt| s@);
                        assert(views + Seq::<StmtV>::empty() =~= views);
                    }
                }
                return Ok(Blck { stmts });
            }
            let ghost ib: int = tokens@.index;
            let ghost views_before = stmts@.map_values(|s: Stmt| s@);
            let st = match Stmt::parse(tokens) {
                Ok(s) => s,
                Err(e) => {
                    return Err(e);
                },
            };
            let ghost ia: int = tokens@.index;
            proof {
                if ordered {
                    if ib > i0 {
                        lemma_ordered_pair(toks, ib - 1, ib);
                        if ia - 1 > ib - 1 {
                            lemma_ordered_pair(toks, ib - 1, ia - 1);
                        }
                    }
                }
            }
            stmts.push(st);
            proof {
                let views_after = stmts@.map_values(|s: Stmt| s@);
                assert(views_after =~= views_before.push(st@));
                if ordered {
                    assert forall|i: int, j: int| 0 <= i < j < views_after.len() implies loc_le(
                        (#[trigger] views_after[i]).span.end,
                        (#[trigger] views_after[j]).span.start,
                    ) by {
                        if j < views_after.len() - 1 {
                            assert(views_after[i] == views_before[i]);
                            assert(views_after[j] == views_before[j]);
                        } else {
                            assert(views_after[i] == views_before[i]);
                            assert(views_after[j] == st@);
                        }
                    }
                }
            }
            let nl: bool = match tokens.current() {
                Some(t) => match &t.kind {
                    TokenKind::NewLine => true,
                    _ => false,
                },
                None => false,
            };
            proof {
                if ok0 {
                    let k = if ia < toks.len() && toks[ia].kind is NewLine {
                        ia + 1
                    } else {
                        ia
                    };
                    match spec_parse_block(toks, k) {
                        Ok(q2) => {
                            assert(views_before + (seq![st@] + q2.0) =~= views_before.push(st@)
                                + q2.0);
                        },
                        Err(_) => {},
                    }
                }
            }
            if nl {
                let ghost before_nl: int = tokens@.index;
                tokens.advance();
                proof {
                    if ordered {
                        lemma_ordered_pair(toks, before_nl - 1, before_nl);
                        assert forall|i: int|
                            0 <= i < stmts@.len() implies loc_le(
                            ((#[trigger] stmts@[i])@).span.end,
                            toks[tokens@.index - 1].span.end,
                        ) by {
                            assert(stmts@[i]@ == views_before.push(st@)[i]);
                        }
                    }
                }
            }
        }
    }
}

impl Prgm {
    /// Parse a whole program: one block covering all remaining tokens.
    pub fn parse(tokens: &mut TokenStream) -> (r: Result<Prgm, Error>)
        ensures
            final(tokens)@.toks == old(tokens)@.toks,
            old(tokens)@.index <= final(tokens)@.index,
            old(tokens)@.index <= old(tokens)@.toks.len() ==> final(tokens)@.index <= old(
                tokens,
            )@.toks.len(),
            (r is Ok && old(tokens)@.index <= old(tokens)@.toks.len()) ==> final(tokens)@.index
                == old(tokens)@.toks.len(),
            (r is Ok && spans_ordered(old(tokens)@.toks) && old(tokens)@.index <= old(
                tokens,
            )@.toks.len()) ==> wf_blck(r->Ok_0@),
            old(tokens)@.index <= old(tokens)@.toks.len() ==> ({
                let res = spec_parse_block(old(tokens)@.toks, old(tokens)@.index);
                match r {
                    Ok(b) => res matches Ok(p) && p.0 == b@ && p.1 == final(tokens)@.index,
                    Err(e) => res matches Err(ev) && ev == e@,
                }
            }),
    {
        match Blck::parse(tokens) {
            Ok(main) => Ok(Prgm { main }),
            Err(e) => Err(e),
        }
    }
}

impl Expn {
    /// Parse an expression at the lowest binding power.
    pub fn parse(tokens: &mut TokenStream) -> (r: Result<Expn, Error>)
        ensures
            final(tokens)@.toks == old(tokens)@.toks,
            old(tokens)@.index <= final(tokens)@.index,
            old(tokens)@.index <= old(tokens)@.toks.len() ==> final(tokens)@.index <= old(
                tokens,
            )@.toks.len(),
            r is Ok ==> old(tokens)@.index < final(tokens)@.index,
            (r is Ok && spans_ordered(old(tokens)@.toks) && old(tokens)@.index <= old(
                tokens,
            )@.toks.len()) ==> old(tokens)@.index < old(tokens)@.toks.len() && expn_in_range(
                old(tokens)@.toks,
                old(tokens)@.index,
                final(tokens)@.index,
                r->Ok_0@,
            ),
            old(tokens)@.index <= old(tokens)@.toks.len() ==> ({
                let res = spec_parse_expn(
                    old(tokens)@.toks,
                    old(tokens)@.index,
                    0u8,
                    expn_fuel(old(tokens)@.toks, old(tokens)@.index),
                );
                match r {
                    Ok(e) => res matches Ok(p) && p.0 == e@ && p.1 == final(tokens)@.index,
                    Err(e) => res matches Err(ev) && ev == e@,
                }
            }),
    {
        Self::parse_impl(tokens, 0)
    }
}

impl Expn {
    /// Convenience for the read loop: parse an expression from the stream,
    /// then evaluate it. An expression never changes the environment; the
    /// recorded output grows only at the end, and the scripted input is
    /// untouched.
    pub fn parse_and_eval(tokens: TokenStream, ctx: &mut Context, io: &mut Io) -> (r: Result<
        i32,
        Error,
    >)
        ensures
            final(ctx)@ == old(ctx)@,
            final(io)@.console == old(io)@.console,
            final(io)@.inputs == old(io)@.inputs,
            old(io)@.console ==> final(io)@.cursor == old(io)@.cursor,
            old(io)@.outputs.is_prefix_of(final(io)@.outputs),
            tokens@.index <= tokens@.toks.len() ==> ({
                match spec_parse_expn(
                    tokens@.toks,
                    tokens@.index,
                    0u8,
                    expn_fuel(tokens@.toks, tokens@.index),
                ) {
                    Err(ev) => r matches Err(e) && e@ == ev && final(io)@ == old(io)@,
                    Ok(p) => (!old(io)@.console || !crate::eval::expn_has_input(p.0)) ==> ({
                        let step = crate::eval::spec_eval_expn(
                            p.0,
                            old(ctx)@,
                            crate::eval::proj(old(io)@),
                        );
                        crate::eval::res_i32(r) == step.0 && crate::eval::proj(final(io)@)
                            == step.1
                    }),
                }
            }),
    {
        let mut toks = tokens;
        match Self::parse(&mut toks) {
            Ok(e) => e.eval(ctx, io),
            Err(er) => Err(er),
        }
    }
}

impl Stmt {
    /// Parse one statement from the stream, then evaluate it.
    pub fn parse_and_eval(tokens: TokenStream, ctx: &mut Context, io: &mut Io) -> (r: Result<
        (),
        Error,
    >)
        ensures
            final(io)@.console == old(io)@.console,
            final(io)@.inputs == old(io)@.inputs,
            old(io)@.console ==> final(io)@.cursor == old(io)@.cursor,
            old(io)@.outputs.is_prefix_of(final(io)@.outputs),
            tokens@.index <= tokens@.toks.len() ==> ({
                match spec_parse_stmt(tokens@.toks, tokens@.index) {
                    Err(ev) => r matches Err(e) && e@ == ev && final(io)@ == old(io)@
                        && final(ctx)@ == old(ctx)@,
                    Ok(p) => (!old(io)@.console || !crate::eval::stmt_has_input(p.0)) ==> ({
                        let step = crate::eval::spec_eval_stmt(
                            p.0,
                            old(ctx)@,
                            crate::eval::proj(old(io)@),
                        );
                        crate::eval::res_unit(r) == step.0 && final(ctx)@ == step.1
                            && crate::eval::proj(final(io)@) == step.2
                    }),
                }
            }),
    {
        let mut toks = tokens;
        match Self::parse(&mut toks) {
            Ok(st) => st.eval(ctx, io),
            Err(er) => Err(er),
        }
    }
}

impl Prgm {
    /// Parse a whole program from the stream, then evaluate it.
    pub fn parse_and_eval(tokens: TokenStream, ctx: &mut Context, io: &mut Io) -> (r: Result<
        (),
        Error,
    >)
        ensures
            final(io)@.console == old(io)@.console,
            final(io)@.inputs == old(io)@.inputs,
            old(io)@.console ==> final(io)@.cursor == old(io)@.cursor,
            old(io)@.outputs.is_prefix_of(final(io)@.outputs),
            tokens@.index <= tokens@.toks.len() ==> ({
                match spec_parse_block(tokens@.toks, tokens@.index) {
                    Err(ev) => r matches Err(e) && e@ == ev && final(io)@ == old(io)@
                        && final(ctx)@ == old(ctx)@,
                    Ok(p) => (!old(io)@.console || !crate::eval::block_has_input(p.0)) ==> ({
                        let step = crate::eval::spec_eval_block(
                            p.0,
                            old(ctx)@,
                            crate::eval::proj(old(io)@),
                        );
                        crate::eval::res_unit(r) == step.0 && final(ctx)@ == step.1
                            && crate::eval::proj(final(io)@) == step.2
                    }),
                }
            }),
    {
        let mut toks = tokens;
        match Self::parse(&mut toks) {
            Ok(p) => p.eval(ctx, io),
            Err(er) => Err(er),
        }
    }
}

impl Expn {
    /// The whole pipeline for one expression line, as the read loop uses
    /// it: lex the source text, parse it as an expression, and evaluate
    /// it. The result is exactly what the mathematical lexer, parser and
    /// interpreter say, whenever the input source is determined.
    pub fn run(source: &str, ctx: &mut Context, io: &mut Io) -> (r: Result<i32, Error>)
        requires
            source@.len() + 2 <= usize::MAX,
        ensures
            final(ctx)@ == old(ctx)@,
            final(io)@.console == old(io)@.console,
            final(io)@.inputs == old(io)@.inputs,
            old(io)@.console ==> final(io)@.cursor == old(io)@.cursor,
            old(io)@.outputs.is_prefix_of(final(io)@.outputs),
            match spec_lex(source@) {
                Err(ev) => r matches Err(e) && e@ == ev && final(io)@ == old(io)@,
                Ok(toks) => match spec_parse_expn(toks, 0, 0u8, expn_fuel(toks, 0)) {
                    Err(ev) => r matches Err(e) && e@ == ev && final(io)@ == old(io)@,
                    Ok(p) => (!old(io)@.console || !crate::eval::expn_has_input(p.0)) ==> ({
                        let step = crate::eval::spec_eval_expn(
                            p.0,
                            old(ctx)@,
                            crate::eval::proj(old(io)@),
                        );
                        crate::eval::res_i32(r) == step.0 && crate::eval::proj(final(io)@)
                            == step.1
                    }),
                },
            },
    {
        match Tokenizer::lex(source) {
            Err(e) => Err(e),
            Ok(tokens) => Self::parse_and_eval(tokens, ctx, io),
        }
    }
}

impl Stmt {
    /// The whole pipeline for one statement line: lex the source text,
    /// parse one statement, and evaluate it.
    pub fn run(source: &str, ctx: &mut Context, io: &mut Io) -> (r: Result<(), Error>)
        requires
            source@.len() + 2 <= usize::MAX,
        ensures
            final(io)@.console == old(io)@.console,
            final(io)@.inputs == old(io)@.inputs,
            old(io)@.console ==> final(io)@.cursor == old(io)@.cursor,
            old(io)@.outputs.is_prefix_of(final(io)@.outputs),
            match spec_lex(source@) {
                Err(ev) => r matches Err(e) && e@ == ev && final(io)@ == old(io)@ && final(ctx)@
                    == old(ctx)@,
                Ok(toks) => match spec_parse_stmt(toks, 0) {
                    Err(ev) => r matches Err(e) && e@ == ev && final(io)@ == old(io)@
                        && final(ctx)@ == old(ctx)@,
                    Ok(p) => (!old(io)@.console || !crate::eval::stmt_has_input(p.0)) ==> ({
                        let step = crate::eval::spec_eval_stmt(
                            p.0,
                            old(ctx)@,
                            crate::eval::proj(old(io)@),
                        );
                        crate::eval::res_unit(r) == step.0 && final(ctx)@ == step.1
                            && crate::eval::proj(final(io)@) == step.2
                    }),
                },
            },
    {
        match Tokenizer::lex(source) {
            Err(e) => Err(e),
            Ok(tokens) => Self::parse_and_eval(tokens, ctx, io),
        }
    }
}

impl Prgm {
    /// The whole pipeline for a source text: lex it, parse it as a
    /// program, and evaluate it against the given environment and sink.
    pub fn run(source: &str, ctx: &mut Context, io: &mut Io) -> (r: Result<(), Error>)
        requires
            source@.len() + 2 <= usize::MAX,
        ensures
            final(io)@.console == old(io)@.console,
            final(io)@.inputs == old(io)@.inputs,
            old(io)@.console ==> final(io)@.cursor == old(io)@.cursor,
            old(io)@.outputs.is_prefix_of(final(io)@.outputs),
            match spec_lex(source@) {
                Err(ev) => r matches Err(e) && e@ == ev && final(io)@ == old(io)@ && final(ctx)@
                    == old(ctx)@,
                Ok(toks) => match spec_parse_block(toks, 0) {
                    Err(ev) => r matches Err(e) && e@ == ev && final(io)@ == old(io)@
                        && final(ctx)@ == old(ctx)@,
                    Ok(p) => (!old(io)@.console || !crate::eval::block_has_input(p.0)) ==> ({
                        let step = crate::eval::spec_eval_block(
                            p.0,
                            old(ctx)@,
                            crate::eval::proj(old(io)@),
                        );
                        crate::eval::res_unit(r) == step.0 && final(ctx)@ == step.1
                            && crate::eval::proj(final(io)@) == step.2
                    }),
                },
            },
    {
        match Tokenizer::lex(source) {
            Err(e) => Err(e),
            Ok(tokens) => Self::parse_and_eval(tokens, ctx, io),
        }
    }
}

} // verus!
