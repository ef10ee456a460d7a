//! Parser tests: exact syntax trees with exact source spans.

use slpy::ast::{BinOp, Expn, Leaf, LeafData, Stmt, StmtData};
use slpy::lexer::Tokenizer;
use slpy::{Loc, Span};

fn num(srow: usize, scol: usize, erow: usize, ecol: usize, n: u32) -> Box<Expn> {
    Box::new(Expn::Leaf(Leaf {
        data: LeafData::Nmbr(n),
        span: Span {
            start: Loc { row: srow, col: scol },
            end: Loc { row: erow, col: ecol },
        },
    }))
}

#[test]
fn two_plus_two() {
    let mut tokens = Tokenizer::lex("2+2").unwrap();
    let expn = Expn::parse(&mut tokens).unwrap();
    assert_eq!(
        expn,
        Expn::BinOp {
            left: num(1, 1, 1, 1, 2),
            op: BinOp::Plus,
            right: num(1, 3, 1, 3, 2),
        }
    );
}

#[test]
fn plus_assoc() {
    let mut tokens = Tokenizer::lex("2+3+4").unwrap();
    let expn = Expn::parse(&mut tokens).unwrap();
    assert_eq!(
        expn,
        Expn::BinOp {
            left: Box::new(Expn::BinOp {
                left: num(1, 1, 1, 1, 2),
                op: BinOp::Plus,
                right: num(1, 3, 1, 3, 3),
            }),
            op: BinOp::Plus,
            right: num(1, 5, 1, 5, 4),
        }
    );
}

#[test]
fn two_plus_two_times_four() {
    let mut tokens = Tokenizer::lex("2+2*4").unwrap();
    let expn = Expn::parse(&mut tokens).unwrap();
    assert_eq!(
        expn,
        Expn::BinOp {
            left: num(1, 1, 1, 1, 2),
            op: BinOp::Plus,
            right: Box::new(Expn::BinOp {
                left: num(1, 3, 1, 3, 2),
                op: BinOp::Times,
                right: num(1, 5, 1, 5, 4),
            }),
        }
    );
}

#[test]
fn paren_two_plus_two_times_four() {
    let mut tokens = Tokenizer::lex("(2+2)*4").unwrap();
    let expn = Expn::parse(&mut tokens).unwrap();
    assert_eq!(
        expn,
        Expn::BinOp {
            left: Box::new(Expn::BinOp {
                left: num(1, 2, 1, 2, 2),
                op: BinOp::Plus,
                right: num(1, 4, 1, 4, 2),
            }),
            op: BinOp::Times,
            right: num(1, 7, 1, 7, 4),
        }
    );
}

#[test]
fn assgn() {
    let mut tokens = Tokenizer::lex("x=2+2").unwrap();
    let stmt = Stmt::parse(&mut tokens).unwrap();
    assert_eq!(
        stmt,
        Stmt {
            span: Span {
                start: Loc { row: 1, col: 1 },
                end: Loc { row: 1, col: 5 },
            },
            data: StmtData::Asgn(
                "x".to_string(),
                Expn::BinOp {
                    left: num(1, 3, 1, 3, 2),
                    op: BinOp::Plus,
                    right: num(1, 5, 1, 5, 2),
                }
            ),
        }
    );
}

#[test]
fn plus_eq_desugars_to_addition() {
    let mut tokens = Tokenizer::lex("x += 3").unwrap();
    let stmt = Stmt::parse(&mut tokens).unwrap();
    // the synthesized name leaf carries the span of the `+=` token itself
    assert_eq!(
        stmt,
        Stmt {
            span: Span {
                start: Loc { row: 1, col: 1 },
                end: Loc { row: 1, col: 6 },
            },
            data: StmtData::Asgn(
                "x".to_string(),
                Expn::BinOp {
                    left: Box::new(Expn::Leaf(Leaf {
                        data: LeafData::Name("x".to_string()),
                        span: Span {
                            start: Loc { row: 1, col: 3 },
                            end: Loc { row: 1, col: 4 },
                        },
                    })),
                    op: BinOp::Plus,
                    right: num(1, 6, 1, 6, 3),
                }
            ),
        }
    );
}

#[test]
fn input_leaf_form() {
    let mut tokens = Tokenizer::lex("x = input(\"n?\")").unwrap();
    let stmt = Stmt::parse(&mut tokens).unwrap();
    // the input leaf spans from the opening parenthesis to the string
    assert_eq!(
        stmt,
        Stmt {
            span: Span {
                start: Loc { row: 1, col: 1 },
                end: Loc { row: 1, col: 14 },
            },
            data: StmtData::Asgn(
                "x".to_string(),
                Expn::Leaf(Leaf {
                    data: LeafData::Inpt("n?".to_string()),
                    span: Span {
                        start: Loc { row: 1, col: 10 },
                        end: Loc { row: 1, col: 14 },
                    },
                })
            ),
        }
    );
}

#[test]
fn block_span_matches_first_and_last_statement() {
    let mut tokens = Tokenizer::lex("x = 1\ny = 2").unwrap();
    let prgm = slpy::ast::Prgm::parse(&mut tokens).unwrap();
    let span = prgm.span();
    assert_eq!(span.start, Loc { row: 1, col: 1 });
    assert_eq!(span.end, Loc { row: 2, col: 5 });
}

#[test]
fn assignment_inside_expression_is_rejected() {
    let mut tokens = Tokenizer::lex("1 + (x = 2)").unwrap();
    let err = Expn::parse(&mut tokens).unwrap_err();
    assert_eq!(err.kind, slpy::error::Kind::Parser(None));
}

#[test]
fn missing_close_paren_is_rejected() {
    // the inner expression consumes the implicit newline, so the closing
    // parenthesis is wanted where the stream already ended
    let mut tokens = Tokenizer::lex("(2+3").unwrap();
    let err = Expn::parse(&mut tokens).unwrap_err();
    assert_eq!(err.kind, slpy::error::Kind::UnexpectedEof);
}

#[test]
fn empty_source_parses_to_empty_program() {
    let mut tokens = Tokenizer::lex("").unwrap();
    let prgm = slpy::ast::Prgm::parse(&mut tokens).unwrap();
    assert_eq!(prgm.main.stmts.len(), 0);
    let span = prgm.span();
    assert_eq!(span.start, Loc { row: 1, col: 1 });
    assert_eq!(span.end, Loc { row: 1, col: 1 });
}

#[test]
fn statement_line_is_not_an_expression() {
    // the read loop first tries a line as an expression, then re-lexes it
    // and runs it as a statement
    let mut ctx = slpy::context::Context::new();
    let mut io = slpy::io::Io::scripted(Vec::new());
    let tokens = Tokenizer::lex("x = 4").unwrap();
    assert!(Expn::parse_and_eval(tokens, &mut ctx, &mut io).is_err());
    let tokens = Tokenizer::lex("x = 4").unwrap();
    assert!(Stmt::parse_and_eval(tokens, &mut ctx, &mut io).is_ok());
    assert_eq!(ctx.get("x"), Some(4));
}
