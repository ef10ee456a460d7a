//! The lexer: scans source text into a flat, randomly-indexable sequence of
//! spanned tokens.
//!
//! The scanner works character by character over the source, tracking a
//! 1-based (row, column) location. A newline is itself a significant token;
//! every line is implicitly terminated with a newline even if the source
//! omits a trailing one. `#` begins a comment that discards the rest of its
//! line. The two-character operators `**`, `+=` and `//` are recognised by
//! one character of lookahead; `+` and `*` fall back to their
//! single-character tokens, while a single `/` is a tokenization error.
//!
//! The whole scan is specified by [`spec_lex`], a mathematical lexer over a
//! sequence of characters, and [`Tokenizer::lex`] is proved to return
//! exactly its result.

use vstd::prelude::*;

use crate::error::{Error, ErrorV, Kind, KindV};
use crate::stream::TokenStream;
use crate::token::{Op, Token, TokenKind, TokenKindV, TokenV};
use crate::{loc_le, wf_span, Loc, Span};

verus! {

/// Append the sequence's implicit final newline: every line is terminated
/// with a newline even if the source omits a trailing one.
pub open spec fn with_final_newline(s: Seq<char>) -> Seq<char> {
    if s.len() == 0 || s.last() == '\n' {
        s
    } else {
        s.push('\n')
    }
}

/// The (row, column) reached after scanning `pos` characters, as a pair of
/// unbounded integers. Rows and columns are 1-based; a newline increments
/// the row and resets the column.
pub open spec fn rowcol(s: Seq<char>, pos: int) -> (int, int)
    decreases pos,
{
    if pos <= 0 {
        (1, 1)
    } else {
        let rc = rowcol(s, pos - 1);
        if s[pos - 1] == '\n' {
            (rc.0 + 1, 1)
        } else {
            (rc.0, rc.1 + 1)
        }
    }
}

/// The location reached after scanning `pos` characters.
pub open spec fn loc_at(s: Seq<char>, pos: int) -> Loc {
    Loc { row: rowcol(s, pos).0 as usize, col: rowcol(s, pos).1 as usize }
}

/// Rows and columns stay between 1 and `pos + 1`.
pub proof fn lemma_rowcol_bounds(s: Seq<char>, pos: int)
    requires
        0 <= pos,
    ensures
        1 <= rowcol(s, pos).0 <= pos + 1,
        1 <= rowcol(s, pos).1 <= pos + 1,
    decreases pos,
{
    if pos > 0 {
        lemma_rowcol_bounds(s, pos - 1);
    }
}

/// Scanning forward never moves the location back: positions map to
/// lexicographically ordered (row, column) pairs.
pub proof fn lemma_rowcol_le(s: Seq<char>, p: int, q: int)
    requires
        0 <= p <= q,
    ensures
        rowcol(s, p).0 < rowcol(s, q).0 || (rowcol(s, p).0 == rowcol(s, q).0 && rowcol(s, p).1
            <= rowcol(s, q).1),
    decreases q - p,
{
    if p < q {
        lemma_rowcol_le(s, p, q - 1);
    }
}

/// `loc_at` is monotone under the lexicographic location order, whenever the
/// positions are small enough for rows and columns to fit in `usize`.
pub proof fn lemma_loc_at_le(s: Seq<char>, p: int, q: int)
    requires
        0 <= p <= q,
        q + 1 <= usize::MAX,
    ensures
        loc_le(loc_at(s, p), loc_at(s, q)),
{
    lemma_rowcol_bounds(s, p);
    lemma_rowcol_bounds(s, q);
    lemma_rowcol_le(s, p, q);
}

/// Space and tab are skipped between tokens; newline is not.
pub open spec fn is_space(c: char) -> bool {
    c == ' ' || c == '\t'
}

/// A decimal digit: `'0'` (code 48) through `'9'` (code 57).
pub open spec fn is_digit(c: char) -> bool {
    48 <= c as u32 && c as u32 <= 57
}

/// The first character of an identifier: an ASCII letter (codes 65-90 and
/// 97-122) or an underscore (code 95).
pub open spec fn is_ident_start(c: char) -> bool {
    (97 <= c as u32 && c as u32 <= 122) || (65 <= c as u32 && c as u32 <= 90) || c as u32 == 95
}

/// A continuation character of an identifier: a letter, digit or underscore.
pub open spec fn is_ident_cont(c: char) -> bool {
    is_ident_start(c) || is_digit(c)
}

/// The numeric value of a digit character.
pub open spec fn digit_val(c: char) -> u32 {
    (c as u32 - 48) as u32
}

/// The first position at or after `pos` whose character is not a space or a
/// tab, or the end of the sequence.
pub open spec fn skip_ws(s: Seq<char>, pos: int) -> int
    decreases s.len() - pos when 0 <= pos <= s.len()
{
    if pos >= s.len() {
        pos
    } else if is_space(s[pos]) {
        skip_ws(s, pos + 1)
    } else {
        pos
    }
}

/// The position just after the next newline at or after `pos`, or the end of
/// the sequence if no newline remains.
pub open spec fn skip_line(s: Seq<char>, pos: int) -> int
    decreases s.len() - pos when 0 <= pos <= s.len()
{
    if pos >= s.len() {
        pos
    } else if s[pos] == '\n' {
        pos + 1
    } else {
        skip_line(s, pos + 1)
    }
}

/// The end of the digit run starting at `pos`: the first position at or
/// after `pos` whose character is not a decimal digit.
pub open spec fn digits_end(s: Seq<char>, pos: int) -> int
    decreases s.len() - pos when 0 <= pos <= s.len()
{
    if pos >= s.len() {
        pos
    } else if is_digit(s[pos]) {
        digits_end(s, pos + 1)
    } else {
        pos
    }
}

/// The end of the identifier starting at `pos`: the first position at or
/// after `pos` whose character is not a letter, digit or underscore.
pub open spec fn ident_end(s: Seq<char>, pos: int) -> int
    decreases s.len() - pos when 0 <= pos <= s.len()
{
    if pos >= s.len() {
        pos
    } else if is_ident_cont(s[pos]) {
        ident_end(s, pos + 1)
    } else {
        pos
    }
}

/// The position of the next `"` at or after `pos`, if any.
pub open spec fn find_quote(s: Seq<char>, pos: int) -> Option<int>
    decreases s.len() - pos when 0 <= pos <= s.len()
{
    if pos >= s.len() {
        None
    } else if s[pos] == '"' {
        Some(pos)
    } else {
        find_quote(s, pos + 1)
    }
}

pub proof fn lemma_skip_ws_bounds(s: Seq<char>, pos: int)
    requires
        0 <= pos <= s.len(),
    ensures
        pos <= skip_ws(s, pos) <= s.len(),
    decreases s.len() - pos,
{
    if pos < s.len() && is_space(s[pos]) {
        lemma_skip_ws_bounds(s, pos + 1);
    }
}

pub proof fn lemma_skip_line_bounds(s: Seq<char>, pos: int)
    requires
        0 <= pos <= s.len(),
    ensures
        pos <= skip_line(s, pos) <= s.len(),
        pos < s.len() ==> pos + 1 <= skip_line(s, pos),
    decreases s.len() - pos,
{
    if pos < s.len() && s[pos] != '\n' {
        lemma_skip_line_bounds(s, pos + 1);
    }
}

pub proof fn lemma_digits_end_bounds(s: Seq<char>, pos: int)
    requires
        0 <= pos <= s.len(),
    ensures
        pos <= digits_end(s, pos) <= s.len(),
        pos < s.len() && is_digit(s[pos]) ==> pos + 1 <= digits_end(s, pos),
    decreases s.len() - pos,
{
    if pos < s.len() && is_digit(s[pos]) {
        lemma_digits_end_bounds(s, pos + 1);
    }
}

pub proof fn lemma_ident_end_bounds(s: Seq<char>, pos: int)
    requires
        0 <= pos <= s.len(),
    ensures
        pos <= ident_end(s, pos) <= s.len(),
        pos < s.len() && is_ident_cont(s[pos]) ==> pos + 1 <= ident_end(s, pos),
    decreases s.len() - pos,
{
    if pos < s.len() && is_ident_cont(s[pos]) {
        lemma_ident_end_bounds(s, pos + 1);
    }
}

pub proof fn lemma_find_quote_bounds(s: Seq<char>, pos: int)
    requires
        0 <= pos <= s.len(),
    ensures
        match find_quote(s, pos) {
            Some(q) => pos <= q < s.len() && s[q] == '"',
            None => true,
        },
    decreases s.len() - pos,
{
    if pos < s.len() && s[pos] != '"' {
        lemma_find_quote_bounds(s, pos + 1);
    }
}

/// The numeric value of the digit run `s[start..end)`, accumulated left to
/// right as value-so-far times ten plus the next digit, wrapping on 32-bit
/// overflow. Wrapping is this library's documented overflow policy for
/// numeric literals.
pub open spec fn num_val(s: Seq<char>, start: int, end: int) -> u32
    decreases end - start,
{
    if end <= start {
        0u32
    } else {
        num_val(s, start, end - 1).wrapping_mul(10).wrapping_add(digit_val(s[end - 1]))
    }
}

/// One step of the mathematical lexer: the end of input, one token together
/// with the position after it, or a failure.
pub enum LexStep {
    Done,
    Tok(TokenV, int),
    Fail(ErrorV),
}

/// The token covering the single character at `p`.
pub open spec fn single_tok(s: Seq<char>, p: int, kind: TokenKindV) -> TokenV {
    TokenV { kind, span: Span { start: loc_at(s, p), end: loc_at(s, p) } }
}

/// The token covering the two characters at `p` and `p + 1`.
pub open spec fn double_tok(s: Seq<char>, p: int, kind: TokenKindV) -> TokenV {
    TokenV { kind, span: Span { start: loc_at(s, p), end: loc_at(s, p + 1) } }
}

/// A tokenization failure pointing at the single location of `p`.
pub open spec fn fail_at(s: Seq<char>, p: int) -> ErrorV {
    ErrorV {
        kind: KindV::Tokenization,
        span: Span { start: loc_at(s, p), end: loc_at(s, p) },
    }
}

/// The mathematical scanner: the next token of `s` at or after `pos`.
///
/// Runs of spaces and tabs are skipped; a `#` discards the rest of its line
/// and scanning continues on the next one. A `/` not followed by a second
/// `/`, an unterminated string literal, and any unsupported character are
/// tokenization failures.
pub open spec fn spec_next_token(s: Seq<char>, pos: int) -> LexStep
    decreases s.len() - pos when 0 <= pos <= s.len() via spec_next_token_dec
{
    let p = skip_ws(s, pos);
    if p >= s.len() {
        LexStep::Done
    } else {
        let c = s[p];
        if c == '\n' {
            LexStep::Tok(single_tok(s, p, TokenKindV::NewLine), p + 1)
        } else if c == '(' {
            LexStep::Tok(single_tok(s, p, TokenKindV::LParen), p + 1)
        } else if c == ')' {
            LexStep::Tok(single_tok(s, p, TokenKindV::RParen), p + 1)
        } else if c == ',' {
            LexStep::Tok(single_tok(s, p, TokenKindV::Comma), p + 1)
        } else if c == '-' {
            LexStep::Tok(single_tok(s, p, TokenKindV::Op(Op::Minus)), p + 1)
        } else if c == '%' {
            LexStep::Tok(single_tok(s, p, TokenKindV::Op(Op::Mod)), p + 1)
        } else if c == '=' {
            LexStep::Tok(single_tok(s, p, TokenKindV::Op(Op::Asgn)), p + 1)
        } else if c == '+' {
            if p + 1 < s.len() && s[p + 1] == '=' {
                LexStep::Tok(double_tok(s, p, TokenKindV::Op(Op::AddEq)), p + 2)
            } else {
                LexStep::Tok(single_tok(s, p, TokenKindV::Op(Op::Plus)), p + 1)
            }
        } else if c == '*' {
            if p + 1 < s.len() && s[p + 1] == '*' {
                LexStep::Tok(double_tok(s, p, TokenKindV::Op(Op::Expt)), p + 2)
            } else {
                LexStep::Tok(single_tok(s, p, TokenKindV::Op(Op::Times)), p + 1)
            }
        } else if c == '/' {
            if p + 1 < s.len() && s[p + 1] == '/' {
                LexStep::Tok(double_tok(s, p, TokenKindV::Op(Op::Div)), p + 2)
            } else {
                LexStep::Fail(ErrorV {
                    kind: KindV::Tokenization,
                    span: Span { start: loc_at(s, p), end: loc_at(s, p + 1) },
                })
            }
        } else if c == '#' {
            spec_next_token(s, skip_line(s, p))
        } else if is_digit(c) {
            let e = digits_end(s, p);
            LexStep::Tok(
                TokenV {
                    kind: TokenKindV::Number(num_val(s, p, e)),
                    span: Span { start: loc_at(s, p), end: loc_at(s, e - 1) },
                },
                e,
            )
        } else if is_ident_start(c) {
            let e = ident_end(s, p);
            LexStep::Tok(
                TokenV {
                    kind: TokenKindV::Ident(s.subrange(p, e)),
                    span: Span { start: loc_at(s, p), end: loc_at(s, e - 1) },
                },
                e,
            )
        } else if c == '"' {
            match find_quote(s, p + 1) {
                Some(q) => LexStep::Tok(
                    TokenV {
                        kind: TokenKindV::Str(s.subrange(p + 1, q)),
                        span: Span { start: loc_at(s, p), end: loc_at(s, q) },
                    },
                    q + 1,
                ),
                None => LexStep::Fail(fail_at(s, p)),
            }
        } else {
            LexStep::Fail(fail_at(s, p))
        }
    }
}

#[via_fn]
proof fn spec_next_token_dec(s: Seq<char>, pos: int) {
    lemma_skip_ws_bounds(s, pos);
    let p = skip_ws(s, pos);
    if p < s.len() && s[p] == '#' {
        lemma_skip_line_bounds(s, p);
    }
}

/// Each produced token makes progress and stays within the input.
pub proof fn lemma_next_token_progress(s: Seq<char>, pos: int)
    requires
        0 <= pos <= s.len(),
    ensures
        match spec_next_token(s, pos) {
            LexStep::Tok(t, p2) => pos < p2 <= s.len(),
            _ => true,
        },
    decreases s.len() - pos,
{
    lemma_skip_ws_bounds(s, pos);
    let p = skip_ws(s, pos);
    if p < s.len() {
        let c = s[p];
        if c == '#' {
            lemma_skip_line_bounds(s, p);
            lemma_next_token_progress(s, skip_line(s, p));
        } else if is_digit(c) {
            lemma_digits_end_bounds(s, p);
        } else if c == '\n' || c == '(' || c == ')' || c == ',' || c == '-' || c == '%' || c
            == '=' || c == '+' || c == '*' || c == '/' {
        } else if is_ident_start(c) {
            lemma_ident_end_bounds(s, p);
        } else if c == '"' {
            lemma_find_quote_bounds(s, p + 1);
        }
    }
}

/// Each produced token has a well-formed span lying between the scan
/// position before it and the scan position after it.
pub proof fn lemma_next_token_span(s: Seq<char>, pos: int)
    requires
        0 <= pos <= s.len(),
        s.len() < usize::MAX,
    ensures
        match spec_next_token(s, pos) {
            LexStep::Tok(t, p2) => wf_span(t.span) && loc_le(loc_at(s, pos), t.span.start)
                && loc_le(t.span.end, loc_at(s, p2)),
            _ => true,
        },
    decreases s.len() - pos,
{
    lemma_skip_ws_bounds(s, pos);
    let p = skip_ws(s, pos);
    if p < s.len() {
        let c = s[p];
        if c == '#' {
            lemma_skip_line_bounds(s, p);
            lemma_next_token_span(s, skip_line(s, p));
            lemma_next_token_progress(s, skip_line(s, p));
            match spec_next_token(s, skip_line(s, p)) {
                LexStep::Tok(t, p2) => {
                    lemma_loc_at_le(s, pos, skip_line(s, p));
                },
                _ => {},
            }
        } else if is_digit(c) {
            lemma_digits_end_bounds(s, p);
            let e = digits_end(s, p);
            lemma_loc_at_le(s, pos, p);
            lemma_loc_at_le(s, p, e - 1);
            lemma_loc_at_le(s, e - 1, e);
        } else if c == '\n' || c == '(' || c == ')' || c == ',' || c == '-' || c == '%' || c
            == '=' {
            lemma_loc_at_le(s, pos, p);
            lemma_loc_at_le(s, p, p);
            lemma_loc_at_le(s, p, p + 1);
        } else if c == '+' || c == '*' || c == '/' {
            lemma_loc_at_le(s, pos, p);
            lemma_loc_at_le(s, p, p + 1);
            if p + 2 <= s.len() {
                lemma_loc_at_le(s, p + 1, p + 2);
            }
        } else if is_ident_start(c) {
            lemma_ident_end_bounds(s, p);
            let e = ident_end(s, p);
            lemma_loc_at_le(s, pos, p);
            lemma_loc_at_le(s, p, e - 1);
            lemma_loc_at_le(s, e - 1, e);
        } else if c == '"' {
            lemma_find_quote_bounds(s, p + 1);
            match find_quote(s, p + 1) {
                Some(q) => {
                    lemma_loc_at_le(s, pos, p);
                    lemma_loc_at_le(s, p, q);
                    lemma_loc_at_le(s, q, q + 1);
                },
                None => {},
            }
        }
    }
}

/// The mathematical lexer: all tokens of `s` from `pos` on, or the first
/// failure.
pub open spec fn spec_lex_from(s: Seq<char>, pos: int) -> Result<Seq<TokenV>, ErrorV>
    decreases s.len() - pos when 0 <= pos <= s.len() via spec_lex_from_dec
{
    match spec_next_token(s, pos) {
        LexStep::Done => Ok(Seq::empty()),
        LexStep::Fail(e) => Err(e),
        LexStep::Tok(t, p2) => match spec_lex_from(s, p2) {
            Ok(rest) => Ok(seq![t] + rest),
            Err(e) => Err(e),
        },
    }
}

#[via_fn]
proof fn spec_lex_from_dec(s: Seq<char>, pos: int) {
    lemma_next_token_progress(s, pos);
}

/// The token sequence of a whole source text: the mathematical lexer run
/// over the text with its implicit final newline.
pub open spec fn spec_lex(source: Seq<char>) -> Result<Seq<TokenV>, ErrorV> {
    spec_lex_from(with_final_newline(source), 0)
}

/// Tokens in scanning order: every span is well formed, and each token ends
/// no later than any later token starts.
pub open spec fn spans_ordered(toks: Seq<TokenV>) -> bool {
    &&& forall|i: int| 0 <= i < toks.len() ==> wf_span((#[trigger] toks[i]).span)
    &&& forall|i: int, j: int|
        0 <= i < j < toks.len() ==> loc_le(
            (#[trigger] toks[i]).span.end,
            (#[trigger] toks[j]).span.start,
        )
}

/// Everything the mathematical lexer produces is in scanning order, at or
/// after the position it was scanned from.
pub proof fn lemma_lex_from_ordered(s: Seq<char>, pos: int)
    requires
        0 <= pos <= s.len(),
        s.len() < usize::MAX,
    ensures
        match spec_lex_from(s, pos) {
            Ok(toks) => spans_ordered(toks) && forall|i: int|
                0 <= i < toks.len() ==> loc_le(loc_at(s, pos), (#[trigger] toks[i].span).start),
            Err(e) => true,
        },
    decreases s.len() - pos,
{
    lemma_next_token_progress(s, pos);
    lemma_next_token_span(s, pos);
    match spec_next_token(s, pos) {
        LexStep::Tok(t, p2) => {
            lemma_lex_from_ordered(s, p2);
            match spec_lex_from(s, p2) {
                Ok(rest) => {
                    let toks = seq![t] + rest;
                    assert(toks.len() == 1 + rest.len());
                    assert(toks[0] == t);
                    assert forall|i: int| 0 <= i < toks.len() implies wf_span(
                        #[trigger] toks[i].span,
                    ) by {
                        if i > 0 {
                            assert(toks[i] == rest[i - 1]);
                        }
                    }
                    assert forall|i: int| 0 <= i < toks.len() implies loc_le(
                        loc_at(s, pos),
                        (#[trigger] toks[i].span).start,
                    ) by {
                        if i > 0 {
                            assert(toks[i] == rest[i - 1]);
                            assert(loc_le(loc_at(s, p2), rest[i - 1].span.start));
                            lemma_loc_at_le(s, pos, p2);
                        }
                    }
                    assert forall|i: int, j: int| 0 <= i < j < toks.len() implies loc_le(
                        (#[trigger] toks[i].span).end,
                        (#[trigger] toks[j].span).start,
                    ) by {
                        assert(toks[j] == rest[j - 1]);
                        if i == 0 {
                            assert(loc_le(t.span.end, loc_at(s, p2)));
                            assert(loc_le(loc_at(s, p2), rest[j - 1].span.start));
                        } else {
                            assert(toks[i] == rest[i - 1]);
                            assert(loc_le(rest[i - 1].span.end, rest[j - 1].span.start));
                        }
                    }
                },
                Err(_) => {},
            }
        },
        _ => {},
    }
}

/// Used while the lexing loop runs: the tokens gathered so far, continued
/// by the mathematical lexer from the current position, give exactly the
/// result of the whole scan.
pub open spec fn lex_glue(s: Seq<char>, acc: Seq<TokenV>, pos: int) -> bool {
    &&& (spec_lex_from(s, pos) matches Ok(rest) ==> spec_lex_from(s, 0) == Ok::<
        Seq<TokenV>,
        ErrorV,
    >(acc + rest))
    &&& (spec_lex_from(s, pos) matches Err(e) ==> spec_lex_from(s, 0) == Err::<
        Seq<TokenV>,
        ErrorV,
    >(e))
}

/// The scanner state: the prepared source characters, the position of the
/// next character to read, and the location that position corresponds to.
pub struct Tokenizer {
    chars: Vec<char>,
    pos: usize,
    loc: Loc,
}

impl Tokenizer {
    /// The prepared source: the given text with its implicit final newline.
    pub closed spec fn src(self) -> Seq<char> {
        self.chars@
    }

    /// The position of the next character to read.
    pub closed spec fn spec_pos(self) -> int {
        self.pos as int
    }

    /// The scanner is within bounds and its location matches its position.
    pub closed spec fn wf(self) -> bool {
        &&& self.pos <= self.chars@.len()
        &&& self.chars@.len() < usize::MAX
        &&& self.loc == loc_at(self.chars@, self.pos as int)
    }

    /// Create a scanner over the source text, implicitly terminating its
    /// last line with a newline, positioned at row 1, column 1.
    pub fn new(source: &str) -> (r: Self)
        requires
            source@.len() + 2 <= usize::MAX,
        ensures
            r.wf(),
            r.src() == with_final_newline(source@),
            r.spec_pos() == 0,
    {
        let n = source.unicode_len();
        let mut chars: Vec<char> = Vec::new();
        let mut i: usize = 0;
        while i < n
            invariant
                n == source@.len(),
                i <= n,
                chars@ == source@.take(i as int),
            decreases n - i,
        {
            let c = source.get_char(i);
            chars.push(c);
            proof {
                assert(chars@ =~= source@.take(i + 1));
            }
            i = i + 1;
        }
        proof {
            assert(source@.take(n as int) =~= source@);
        }
        if chars.len() > 0 {
            let last = chars[chars.len() - 1];
            if last != '\n' {
                chars.push('\n');
            }
        }
        proof {
            assert(chars@ =~= with_final_newline(source@));
        }
        Tokenizer { chars, pos: 0, loc: Loc { row: 1, col: 1 } }
    }

    // The current character, or `None` at the end of the source.
    fn curr_char(&self) -> (r: Option<char>)
        requires
            self.wf(),
        ensures
            match r {
                Some(c) => self.spec_pos() < self.src().len() && c == self.src()[self.spec_pos()],
                None => self.spec_pos() == self.src().len(),
            },
    {
        if self.pos < self.chars.len() {
            Some(self.chars[self.pos])
        } else {
            None
        }
    }

    // The character after the current one, if any.
    fn next_char(&self) -> (r: Option<char>)
        requires
            self.wf(),
        ensures
            match r {
                Some(c) => self.spec_pos() + 1 < self.src().len() && c == self.src()[self.spec_pos()
                    + 1],
                None => self.spec_pos() + 1 >= self.src().len(),
            },
    {
        if self.pos < self.chars.len() && self.pos + 1 < self.chars.len() {
            Some(self.chars[self.pos + 1])
        } else {
            None
        }
    }

    // Advance past the current character, moving the location one column
    // right, or to the start of the next row after a newline.
    fn advance(&mut self)
        requires
            old(self).wf(),
            old(self).spec_pos() < old(self).src().len(),
        ensures
            final(self).wf(),
            final(self).src() == old(self).src(),
            final(self).spec_pos() == old(self).spec_pos() + 1,
    {
        proof {
            lemma_rowcol_bounds(self.chars@, self.pos as int);
        }
        let c = self.chars[self.pos];
        if c == '\n' {
            self.loc.row = self.loc.row + 1;
            self.loc.col = 1;
        } else {
            self.loc.col = self.loc.col + 1;
        }
        self.pos = self.pos + 1;
        proof {
            assert(self.loc == loc_at(self.chars@, self.pos as int));
        }
    }

    // Produce a token covering the single current character, and advance.
    fn single_char(&mut self, kind: TokenKind) -> (t: Token)
        requires
            old(self).wf(),
            old(self).spec_pos() < old(self).src().len(),
        ensures
            final(self).wf(),
            final(self).src() == old(self).src(),
            final(self).spec_pos() == old(self).spec_pos() + 1,
            t@ == single_tok(old(self).src(), old(self).spec_pos(), kind@),
    {
        let token = Token { kind, span: Span { start: self.loc, end: self.loc } };
        self.advance();
        token
    }

    // Produce a token covering the current character and the next one, and
    // advance past both.
    fn double_char(&mut self, kind: TokenKind) -> (t: Token)
        requires
            old(self).wf(),
            old(self).spec_pos() + 1 < old(self).src().len(),
        ensures
            final(self).wf(),
            final(self).src() == old(self).src(),
            final(self).spec_pos() == old(self).spec_pos() + 2,
            t@ == double_tok(old(self).src(), old(self).spec_pos(), kind@),
    {
        let start = self.loc;
        self.advance();
        let end = self.loc;
        let token = Token { kind, span: Span { start, end } };
        self.advance();
        token
    }

    // Scan a numeric literal: the maximal run of decimal digits, its value
    // accumulated as value-so-far times ten plus the next digit, wrapping
    // on 32-bit overflow.
    fn scan_number(&mut self) -> (t: Token)
        requires
            old(self).wf(),
            old(self).spec_pos() < old(self).src().len(),
            is_digit(old(self).src()[old(self).spec_pos()]),
        ensures
            final(self).wf(),
            final(self).src() == old(self).src(),
            final(self).spec_pos() == digits_end(old(self).src(), old(self).spec_pos()),
            t@ == (TokenV {
                kind: TokenKindV::Number(
                    num_val(
                        old(self).src(),
                        old(self).spec_pos(),
                        digits_end(old(self).src(), old(self).spec_pos()),
                    ),
                ),
                span: Span {
                    start: loc_at(old(self).src(), old(self).spec_pos()),
                    end: loc_at(
                        old(self).src(),
                        digits_end(old(self).src(), old(self).spec_pos()) - 1,
                    ),
                },
            }),
    {
        let ghost s = self.chars@;
        let ghost p0 = self.pos as int;
        proof {
            lemma_digits_end_bounds(s, p0);
        }
        let ghost de = digits_end(s, p0);
        let start_loc = self.loc;
        let mut end_loc = self.loc;
        let mut val: u32 = 0;
        loop
            invariant_except_break
                self.wf(),
                self.chars@ == s,
                0 <= p0 <= self.spec_pos() <= de,
                p0 < s.len(),
                de == digits_end(s, self.spec_pos()),
                de <= s.len(),
                is_digit(s[p0]),
                val == num_val(s, p0, self.spec_pos()),
                self.spec_pos() == p0 ==> end_loc == loc_at(s, p0),
                self.spec_pos() > p0 ==> end_loc == loc_at(s, self.spec_pos() - 1),
            ensures
                self.wf(),
                self.chars@ == s,
                self.spec_pos() == de,
                val == num_val(s, p0, de),
                end_loc == loc_at(s, de - 1),
            decreases s.len() - self.spec_pos(),
        {
            proof {
                lemma_digits_end_bounds(s, p0);
            }
            match self.curr_char() {
                None => {
                    proof {
                        assert(digits_end(s, self.spec_pos()) == self.spec_pos());
                    }
                    break ;
                },
                Some(c) => {
                    let u = c as u32;
                    if 48 <= u && u <= 57 {
                        proof {
                            lemma_digits_end_bounds(s, self.spec_pos());
                            assert(digits_end(s, self.spec_pos()) == digits_end(
                                s,
                                self.spec_pos() + 1,
                            ));
                        }
                        val = val.wrapping_mul(10).wrapping_add(u - 48);
                        end_loc = self.loc;
                        self.advance();
                    } else {
                        proof {
                            assert(digits_end(s, self.spec_pos()) == self.spec_pos());
                        }
                        break ;
                    }
                },
            }
        }
        Token { kind: TokenKind::Number(val), span: Span { start: start_loc, end: end_loc } }
    }

    // Scan an identifier: the maximal run of letters, digits and
    // underscores, collected verbatim.
    fn scan_ident(&mut self) -> (t: Token)
        requires
            old(self).wf(),
            old(self).spec_pos() < old(self).src().len(),
            is_ident_start(old(self).src()[old(self).spec_pos()]),
        ensures
            final(self).wf(),
            final(self).src() == old(self).src(),
            final(self).spec_pos() == ident_end(old(self).src(), old(self).spec_pos()),
            t@ == (TokenV {
                kind: TokenKindV::Ident(
                    old(self).src().subrange(
                        old(self).spec_pos(),
                        ident_end(old(self).src(), old(self).spec_pos()),
                    ),
                ),
                span: Span {
                    start: loc_at(old(self).src(), old(self).spec_pos()),
                    end: loc_at(
                        old(self).src(),
                        ident_end(old(self).src(), old(self).spec_pos()) - 1,
                    ),
                },
            }),
    {
        let ghost s = self.chars@;
        let ghost p0 = self.pos as int;
        proof {
            lemma_ident_end_bounds(s, p0);
        }
        let ghost ie = ident_end(s, p0);
        let start_loc = self.loc;
        let mut end_loc = self.loc;
        let mut text = String::new();
        loop
            invariant_except_break
                self.wf(),
                self.chars@ == s,
                0 <= p0 <= self.spec_pos() <= ie,
                p0 < s.len(),
                ie == ident_end(s, self.spec_pos()),
                ie <= s.len(),
                is_ident_start(s[p0]),
                text@ == s.subrange(p0, self.spec_pos()),
                self.spec_pos() == p0 ==> end_loc == loc_at(s, p0),
                self.spec_pos() > p0 ==> end_loc == loc_at(s, self.spec_pos() - 1),
            ensures
                self.wf(),
                self.chars@ == s,
                self.spec_pos() == ie,
                text@ == s.subrange(p0, ie),
                end_loc == loc_at(s, ie - 1),
            decreases s.len() - self.spec_pos(),
        {
            proof {
                lemma_ident_end_bounds(s, p0);
            }
            match self.curr_char() {
                None => {
                    proof {
                        assert(ident_end(s, self.spec_pos()) == self.spec_pos());
                    }
                    break ;
                },
                Some(c) => {
                    let u = c as u32;
                    if (97 <= u && u <= 122) || (65 <= u && u <= 90) || u == 95 || (48 <= u && u
                        <= 57) {
                        proof {
                            lemma_ident_end_bounds(s, self.spec_pos());
                            assert(ident_end(s, self.spec_pos()) == ident_end(
                                s,
                                self.spec_pos() + 1,
                            ));
                        }
                        text.push(c);
                        end_loc = self.loc;
                        self.advance();
                        proof {
                            assert(text@ =~= s.subrange(p0, self.spec_pos()));
                        }
                    } else {
                        proof {
                            assert(ident_end(s, self.spec_pos()) == self.spec_pos());
                        }
                        break ;
                    }
                },
            }
        }
        Token { kind: TokenKind::Ident(text), span: Span { start: start_loc, end: end_loc } }
    }

    // Scan a string literal from its opening quote: interior characters are
    // collected verbatim, with no escape processing; an unterminated string
    // is a tokenization failure pointing at the opening quote.
    fn scan_string(&mut self) -> (r: Result<Token, Error>)
        requires
            old(self).wf(),
            old(self).spec_pos() < old(self).src().len(),
            old(self).src()[old(self).spec_pos()] == '"',
        ensures
            final(self).wf(),
            final(self).src() == old(self).src(),
            match find_quote(old(self).src(), old(self).spec_pos() + 1) {
                Some(q) => ({
                    &&& r matches Ok(t) && t@ == (TokenV {
                        kind: TokenKindV::Str(
                            old(self).src().subrange(old(self).spec_pos() + 1, q),
                        ),
                        span: Span {
                            start: loc_at(old(self).src(), old(self).spec_pos()),
                            end: loc_at(old(self).src(), q),
                        },
                    })
                    &&& final(self).spec_pos() == q + 1
                }),
                None => r matches Err(e) && e@ == fail_at(old(self).src(), old(self).spec_pos()),
            },
    {
        let ghost s = self.chars@;
        let ghost p0 = self.pos as int;
        let start_loc = self.loc;
        self.advance();
        let mut text = String::new();
        loop
            invariant
                self.wf(),
                self.chars@ == s,
                s == old(self).src(),
                p0 == old(self).spec_pos(),
                0 <= p0,
                p0 + 1 <= self.spec_pos() <= s.len(),
                find_quote(s, self.spec_pos()) == find_quote(s, p0 + 1),
                text@ == s.subrange(p0 + 1, self.spec_pos()),
                start_loc == loc_at(s, p0),
                s[p0] == '"',
                p0 < s.len(),
            decreases s.len() - self.spec_pos(),
        {
            match self.curr_char() {
                None => {
                    proof {
                        assert(find_quote(s, self.spec_pos()) is None);
                    }
                    return Err(
                        Error {
                            kind: Kind::Tokenization,
                            span: Span { start: start_loc, end: start_loc },
                        },
                    );
                },
                Some(c) => {
                    if c == '"' {
                        proof {
                            assert(find_quote(s, self.spec_pos()) == Some(self.spec_pos()));
                        }
                        let end_loc = self.loc;
                        self.advance();
                        return Ok(
                            Token {
                                kind: TokenKind::Str(text),
                                span: Span { start: start_loc, end: end_loc },
                            },
                        );
                    } else {
                        proof {
                            assert(find_quote(s, self.spec_pos()) == find_quote(
                                s,
                                self.spec_pos() + 1,
                            ));
                        }
                        text.push(c);
                        self.advance();
                        proof {
                            assert(text@ =~= s.subrange(p0 + 1, self.spec_pos()));
                        }
                    }
                },
            }
        }
    }

    // Scan the next token, skipping runs of spaces and tabs and whole
    // comment lines, exactly as the mathematical scanner does.
    fn next_token(&mut self) -> (r: Result<Option<Token>, Error>)
        requires
            old(self).wf(),
        ensures
            final(self).wf(),
            final(self).src() == old(self).src(),
            match spec_next_token(old(self).src(), old(self).spec_pos()) {
                LexStep::Done => r matches Ok(None) && final(self).spec_pos() == old(
                    self,
                ).src().len(),
                LexStep::Tok(t, p2) => r matches Ok(tok) && tok matches Some(tokn) && tokn@ == t
                    && final(self).spec_pos() == p2,
                LexStep::Fail(e) => r matches Err(err) && err@ == e,
            },
        decreases old(self).src().len() - old(self).spec_pos(),
    {
        let ghost s = self.chars@;
        let ghost pos0 = self.pos as int;
        proof {
            lemma_skip_ws_bounds(s, pos0);
        }
        loop
            invariant_except_break
                self.wf(),
                self.chars@ == s,
                0 <= pos0 <= self.spec_pos() <= s.len(),
                skip_ws(s, self.spec_pos()) == skip_ws(s, pos0),
            ensures
                self.wf(),
                self.chars@ == s,
                self.spec_pos() == skip_ws(s, pos0),
                pos0 <= self.spec_pos(),
            decreases s.len() - self.spec_pos(),
        {
            match self.curr_char() {
                None => {
                    proof {
                        assert(skip_ws(s, self.spec_pos()) == self.spec_pos());
                    }
                    break ;
                },
                Some(c) => {
                    if c == ' ' || c == '\t' {
                        proof {
                            assert(skip_ws(s, self.spec_pos()) == skip_ws(s, self.spec_pos() + 1));
                        }
                        self.advance();
                    } else {
                        proof {
                            assert(skip_ws(s, self.spec_pos()) == self.spec_pos());
                        }
                        break ;
                    }
                },
            }
        }
        match self.curr_char() {
            None => Ok(None),
            Some(c) => {
                if c == '\n' {
                    Ok(Some(self.single_char(TokenKind::NewLine)))
                } else if c == '(' {
                    Ok(Some(self.single_char(TokenKind::LParen)))
                } else if c == ')' {
                    Ok(Some(self.single_char(TokenKind::RParen)))
                } else if c == ',' {
                    Ok(Some(self.single_char(TokenKind::Comma)))
                } else if c == '-' {
                    Ok(Some(self.single_char(TokenKind::Op(Op::Minus))))
                } else if c == '%' {
                    Ok(Some(self.single_char(TokenKind::Op(Op::Mod))))
                } else if c == '=' {
                    Ok(Some(self.single_char(TokenKind::Op(Op::Asgn))))
                } else if c == '+' {
                    match self.next_char() {
                        Some(n) if n == '=' => Ok(Some(self.double_char(TokenKind::Op(Op::AddEq)))),
                        _ => Ok(Some(self.single_char(TokenKind::Op(Op::Plus)))),
                    }
                } else if c == '*' {
                    match self.next_char() {
                        Some(n) if n == '*' => Ok(Some(self.double_char(TokenKind::Op(Op::Expt)))),
                        _ => Ok(Some(self.single_char(TokenKind::Op(Op::Times)))),
                    }
                } else if c == '/' {
                    match self.next_char() {
                        Some(n) if n == '/' => Ok(Some(self.double_char(TokenKind::Op(Op::Div)))),
                        _ => {
                            let start = self.loc;
                            self.advance();
                            let end = self.loc;
                            Err(Error { kind: Kind::Tokenization, span: Span { start, end } })
                        },
                    }
                } else if c == '#' {
                    let ghost p = self.spec_pos();
                    loop
                        invariant_except_break
                            self.wf(),
                            self.chars@ == s,
                            0 <= p <= self.spec_pos() <= s.len(),
                            skip_line(s, self.spec_pos()) == skip_line(s, p),
                        ensures
                            self.wf(),
                            self.chars@ == s,
                            self.spec_pos() == skip_line(s, p),
                            p < self.spec_pos() || self.spec_pos() == s.len(),
                        decreases s.len() - self.spec_pos(),
                    {
                        match self.curr_char() {
                            None => {
                                proof {
                                    assert(skip_line(s, self.spec_pos()) == self.spec_pos());
                                }
                                break ;
                            },
                            Some(c2) => {
                                proof {
                                    if c2 == '\n' {
                                        assert(skip_line(s, self.spec_pos()) == self.spec_pos()
                                            + 1);
                                    } else {
                                        assert(skip_line(s, self.spec_pos()) == skip_line(
                                            s,
                                            self.spec_pos() + 1,
                                        ));
                                    }
                                }
                                self.advance();
                                if c2 == '\n' {
                                    break ;
                                }
                            },
                        }
                    }
                    proof {
                        lemma_skip_line_bounds(s, p);
                    }
                    self.next_token()
                } else {
                    let u = c as u32;
                    if 48 <= u && u <= 57 {
                        Ok(Some(self.scan_number()))
                    } else if (97 <= u && u <= 122) || (65 <= u && u <= 90) || u == 95 {
                        Ok(Some(self.scan_ident()))
                    } else if c == '"' {
                        match self.scan_string() {
                            Ok(t) => Ok(Some(t)),
                            Err(e) => Err(e),
                        }
                    } else {
                        let l = self.loc;
                        Err(Error { kind: Kind::Tokenization, span: Span { start: l, end: l } })
                    }
                }
            },
        }
    }

    /// Lex a whole source text into a token stream, or fail with the first
    /// tokenization error. The returned stream holds exactly the tokens of
    /// the mathematical lexer, in scanning order, with the cursor at the
    /// start.
    pub fn lex(source: &str) -> (r: Result<TokenStream, Error>)
        requires
            source@.len() + 2 <= usize::MAX,
        ensures
            match r {
                Ok(ts) => ({
                    &&& spec_lex(source@) matches Ok(toks) && ts@.toks == toks
                    &&& ts@.index == 0
                    &&& spans_ordered(ts@.toks)
                }),
                Err(e) => spec_lex(source@) matches Err(ev) && e@ == ev,
            },
    {
        let mut tokenizer = Tokenizer::new(source);
        let mut tokens = TokenStream::new();
        let ghost s = tokenizer.src();
        proof {
            match spec_lex_from(s, 0) {
                Ok(toks0) => {
                    assert(Seq::<TokenV>::empty() + toks0 =~= toks0);
                },
                Err(_) => {},
            }
        }
        loop
            invariant
                tokenizer.wf(),
                tokenizer.src() == s,
                s == with_final_newline(source@),
                tokens@.index == 0,
                0 <= tokenizer.spec_pos() <= s.len(),
                lex_glue(s, tokens@.toks, tokenizer.spec_pos()),
            decreases s.len() - tokenizer.spec_pos(),
        {
            let ghost posb = tokenizer.spec_pos();
            let ghost accb = tokens@.toks;
            proof {
                lemma_next_token_progress(s, posb);
            }
            match tokenizer.next_token() {
                Err(e) => {
                    return Err(e);
                },
                Ok(None) => {
                    proof {
                        lemma_lex_from_ordered(s, 0);
                        assert(accb + Seq::<TokenV>::empty() =~= accb);
                    }
                    return Ok(tokens);
                },
                Ok(Some(t)) => {
                    proof {
                        let p2 = match spec_next_token(s, posb) {
                            LexStep::Tok(tv, p2) => p2,
                            _ => 0int,
                        };
                        match spec_lex_from(s, p2) {
                            Ok(rest2) => {
                                assert(accb + (seq![t@] + rest2) =~= accb.push(t@) + rest2);
                            },
                            Err(_) => {},
                        }
                    }
                    tokens.append(t);
                },
            }
        }
    }
}

} // verus!


