//! Lexer tests: token kinds, exact spans, comments, two-character
//! operators and failure cases.

use slpy::lexer::Tokenizer;
use slpy::stream::TokenStream;
use slpy::token::{Op, Token, TokenKind};
use slpy::{Loc, Span};

fn drain(mut stream: TokenStream) -> Vec<Token> {
    let mut out: Vec<Token> = Vec::new();
    while let Some(t) = stream.current() {
        out.push(t.clone());
        stream.advance();
    }
    out
}

fn kinds(src: &str) -> Vec<TokenKind> {
    drain(Tokenizer::lex(src).unwrap())
        .into_iter()
        .map(|t| t.kind)
        .collect()
}

fn tok(srow: usize, scol: usize, erow: usize, ecol: usize, kind: TokenKind) -> Token {
    Token {
        kind,
        span: Span {
            start: Loc { row: srow, col: scol },
            end: Loc { row: erow, col: ecol },
        },
    }
}

#[test]
fn single_char_tokens() {
    assert_eq!(
        kinds("( ) , - % ="),
        vec![
            TokenKind::LParen,
            TokenKind::RParen,
            TokenKind::Comma,
            TokenKind::Op(Op::Minus),
            TokenKind::Op(Op::Mod),
            TokenKind::Op(Op::Asgn),
            TokenKind::NewLine,
        ]
    );
}

#[test]
fn plus_alone_is_plus_with_width_one() {
    // lookahead for `+=` backs off and the single `+` still lexes
    let tokens = drain(Tokenizer::lex("+").unwrap());
    assert_eq!(
        tokens,
        vec![
            tok(1, 1, 1, 1, TokenKind::Op(Op::Plus)),
            tok(1, 2, 1, 2, TokenKind::NewLine),
        ]
    );
}

#[test]
fn two_char_operators() {
    assert_eq!(
        kinds("+= ** //"),
        vec![
            TokenKind::Op(Op::AddEq),
            TokenKind::Op(Op::Expt),
            TokenKind::Op(Op::Div),
            TokenKind::NewLine,
        ]
    );
}

#[test]
fn star_alone_is_times() {
    assert_eq!(kinds("*"), vec![TokenKind::Op(Op::Times), TokenKind::NewLine]);
}

#[test]
fn single_slash_fails() {
    let err = Tokenizer::lex("1 / 2").unwrap_err();
    assert_eq!(err.kind, slpy::error::Kind::Tokenization);
}

#[test]
fn comment_is_discarded() {
    // the comment line produces no token at all
    let tokens = drain(Tokenizer::lex("#\nx").unwrap());
    assert_eq!(
        tokens,
        vec![
            tok(2, 1, 2, 1, TokenKind::Ident("x".to_string())),
            tok(2, 2, 2, 2, TokenKind::NewLine),
        ]
    );
}

#[test]
fn comment_after_code() {
    assert_eq!(
        kinds("x = 1 # set x"),
        vec![
            TokenKind::Ident("x".to_string()),
            TokenKind::Op(Op::Asgn),
            TokenKind::Number(1),
        ]
    );
}

#[test]
fn empty_source_has_no_tokens() {
    let tokens = drain(Tokenizer::lex("").unwrap());
    assert_eq!(tokens, Vec::new());
}

#[test]
fn number_token() {
    assert_eq!(kinds("1234"), vec![TokenKind::Number(1234), TokenKind::NewLine]);
}

#[test]
fn number_wraps_on_overflow() {
    // numeric literals accumulate with wrapping 32-bit arithmetic
    assert_eq!(kinds("4294967296"), vec![TokenKind::Number(0), TokenKind::NewLine]);
}

#[test]
fn ident_tokens() {
    assert_eq!(
        kinds("abcd _abcd a_124_Bb41"),
        vec![
            TokenKind::Ident("abcd".to_string()),
            TokenKind::Ident("_abcd".to_string()),
            TokenKind::Ident("a_124_Bb41".to_string()),
            TokenKind::NewLine,
        ]
    );
}

#[test]
fn string_token() {
    assert_eq!(
        kinds("\"a b c\""),
        vec![TokenKind::Str("a b c".to_string()), TokenKind::NewLine]
    );
}

#[test]
fn unterminated_string_fails() {
    let err = Tokenizer::lex("\"abc").unwrap_err();
    assert_eq!(err.kind, slpy::error::Kind::Tokenization);
}

#[test]
fn unsupported_character_fails_with_location() {
    let err = Tokenizer::lex("x = $").unwrap_err();
    assert_eq!(err.kind, slpy::error::Kind::Tokenization);
    assert_eq!(err.span.start, Loc { row: 1, col: 5 });
}

#[test]
fn expt_spans() {
    let tokens = drain(Tokenizer::lex("2 ** 3").unwrap());
    assert_eq!(
        tokens,
        vec![
            tok(1, 1, 1, 1, TokenKind::Number(2)),
            tok(1, 3, 1, 4, TokenKind::Op(Op::Expt)),
            tok(1, 6, 1, 6, TokenKind::Number(3)),
            tok(1, 7, 1, 7, TokenKind::NewLine),
        ]
    );
}

#[test]
fn call_spans() {
    let tokens = drain(Tokenizer::lex("print(x)").unwrap());
    assert_eq!(
        tokens,
        vec![
            tok(1, 1, 1, 5, TokenKind::Ident("print".to_string())),
            tok(1, 6, 1, 6, TokenKind::LParen),
            tok(1, 7, 1, 7, TokenKind::Ident("x".to_string())),
            tok(1, 8, 1, 8, TokenKind::RParen),
            tok(1, 9, 1, 9, TokenKind::NewLine),
        ]
    );
}

#[test]
fn mult_spans() {
    let tokens = drain(Tokenizer::lex("a_b*y").unwrap());
    assert_eq!(
        tokens,
        vec![
            tok(1, 1, 1, 3, TokenKind::Ident("a_b".to_string())),
            tok(1, 4, 1, 4, TokenKind::Op(Op::Times)),
            tok(1, 5, 1, 5, TokenKind::Ident("y".to_string())),
            tok(1, 6, 1, 6, TokenKind::NewLine),
        ]
    );
}

#[test]
fn mult_whitespace_spans() {
    let tokens = drain(Tokenizer::lex("a_b * y").unwrap());
    assert_eq!(
        tokens,
        vec![
            tok(1, 1, 1, 3, TokenKind::Ident("a_b".to_string())),
            tok(1, 5, 1, 5, TokenKind::Op(Op::Times)),
            tok(1, 7, 1, 7, TokenKind::Ident("y".to_string())),
            tok(1, 8, 1, 8, TokenKind::NewLine),
        ]
    );
}

#[test]
fn two_lines_spans() {
    let tokens = drain(Tokenizer::lex("x = input(\"Enter a number.\")\nprint(x)").unwrap());
    assert_eq!(
        tokens,
        vec![
            tok(1, 1, 1, 1, TokenKind::Ident("x".to_string())),
            tok(1, 3, 1, 3, TokenKind::Op(Op::Asgn)),
            tok(1, 5, 1, 9, TokenKind::Ident("input".to_string())),
            tok(1, 10, 1, 10, TokenKind::LParen),
            tok(1, 11, 1, 27, TokenKind::Str("Enter a number.".to_string())),
            tok(1, 28, 1, 28, TokenKind::RParen),
            tok(1, 29, 1, 29, TokenKind::NewLine),
            tok(2, 1, 2, 5, TokenKind::Ident("print".to_string())),
            tok(2, 6, 2, 6, TokenKind::LParen),
            tok(2, 7, 2, 7, TokenKind::Ident("x".to_string())),
            tok(2, 8, 2, 8, TokenKind::RParen),
            tok(2, 9, 2, 9, TokenKind::NewLine),
        ]
    );
}

#[test]
fn cursor_reset_and_eat() {
    let mut stream = Tokenizer::lex("x").unwrap();
    assert!(stream
        .eat(&TokenKind::Ident("x".to_string()))
        .is_ok());
    assert!(stream.eat(&TokenKind::NewLine).is_ok());
    assert!(stream.current().is_none());
    stream.reset();
    assert_eq!(
        stream.current().map(|t| t.kind.clone()),
        Some(TokenKind::Ident("x".to_string()))
    );
    let err = stream.eat(&TokenKind::NewLine).unwrap_err();
    assert_eq!(
        err.kind,
        slpy::error::Kind::Parser(Some((
            TokenKind::NewLine,
            TokenKind::Ident("x".to_string())
        )))
    );
}

#[test]
fn eat_past_end_is_unexpected_eof() {
    let mut stream = TokenStream::new();
    let err = stream.eat(&TokenKind::NewLine).unwrap_err();
    assert_eq!(err.kind, slpy::error::Kind::UnexpectedEof);
    assert_eq!(err.span.start, Loc { row: 1, col: 1 });
}
