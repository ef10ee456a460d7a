//! Evaluator tests: arithmetic policy, precedence, environment updates,
//! error locality, and scripted input/output.

use slpy::ast::{Expn, Prgm};
use slpy::context::Context;
use slpy::error::{Error, Kind};
use slpy::io::{Io, OutEvent};
use slpy::lexer::Tokenizer;
use slpy::{Loc, Span};

fn eval_expr(src: &str) -> i32 {
    let mut tokens = Tokenizer::lex(src).unwrap();
    let expn = Expn::parse(&mut tokens).unwrap();
    let mut ctx = Context::new();
    let mut io = Io::scripted(Vec::new());
    expn.eval(&mut ctx, &mut io).unwrap()
}

fn run_program(src: &str, inputs: Vec<&str>) -> (Context, Io, Result<(), Error>) {
    let mut tokens = Tokenizer::lex(src).unwrap();
    let prgm = Prgm::parse(&mut tokens).unwrap();
    let mut ctx = Context::new();
    let lines: Vec<String> = inputs.iter().map(|s| s.to_string()).collect();
    let mut io = Io::scripted(lines);
    let r = prgm.eval(&mut ctx, &mut io);
    (ctx, io, r)
}

#[test]
fn eval_two_plus_two() {
    assert_eq!(eval_expr("2+2"), 4);
}

#[test]
fn precedence_times_before_plus() {
    assert_eq!(eval_expr("2 + 2 * 4"), 10);
}

#[test]
fn expt_right_assoc() {
    assert_eq!(eval_expr("4 ** 3 ** 2"), 262144);
}

#[test]
fn expt_grouped() {
    assert_eq!(eval_expr("(4 ** 3) ** 2"), 4096);
}

#[test]
fn minus_assoc() {
    assert_eq!(eval_expr("1 - 2 - 3"), -4);
}

#[test]
fn minus_grouped() {
    assert_eq!(eval_expr("1 - (2 - 3)"), 2);
}

#[test]
fn floor_div() {
    assert_eq!(eval_expr("30 // 7"), 4);
}

#[test]
fn simple_div() {
    assert_eq!(eval_expr("4 // 3"), 1);
}

#[test]
fn modulo() {
    assert_eq!(eval_expr("14 % 10"), 4);
}

#[test]
fn mod_assoc() {
    assert_eq!(eval_expr("(2*3) + 14 % 10"), 10);
}

#[test]
fn times_precedence() {
    assert_eq!(eval_expr("2 + 5 * 6"), 32);
}

#[test]
fn expt_and_times_precedence() {
    assert_eq!(eval_expr("1 ** 2 + 5 * 6"), 31);
}

#[test]
fn double_expt_and_times_precedence() {
    assert_eq!(eval_expr("3 ** 1 ** 2 + 5 * 6"), 33);
}

#[test]
fn times_and_div_precedence() {
    assert_eq!(eval_expr("5 * 6 // 7"), 4);
}

#[test]
fn mixed_precedence_chain() {
    assert_eq!(eval_expr("3 ** 1 ** 2 + 5 * 6 // 7"), 7);
}

#[test]
fn negative_exponent_gives_zero() {
    assert_eq!(eval_expr("2 ** (0 - 3)"), 0);
}

#[test]
fn addition_wraps_on_overflow() {
    assert_eq!(eval_expr("2147483647 + 1"), i32::MIN);
}

#[test]
fn exponent_wraps_on_overflow() {
    assert_eq!(eval_expr("2 ** 31"), i32::MIN);
}

#[test]
fn division_by_zero_is_interpretation_error() {
    let mut tokens = Tokenizer::lex("1 // 0").unwrap();
    let expn = Expn::parse(&mut tokens).unwrap();
    let mut ctx = Context::new();
    let mut io = Io::scripted(Vec::new());
    let err = expn.eval(&mut ctx, &mut io).unwrap_err();
    assert_eq!(err.kind, Kind::Interpretation);
}

#[test]
fn assignment_updates_context() {
    let (ctx, _io, r) = run_program("x = 2 + 3", Vec::new());
    assert!(r.is_ok());
    assert_eq!(ctx.get("x"), Some(5));
}

#[test]
fn plus_eq_adds_to_binding() {
    let (ctx, _io, r) = run_program("x = 2\nx += 3", Vec::new());
    assert!(r.is_ok());
    assert_eq!(ctx.get("x"), Some(5));
}

#[test]
fn plus_eq_matches_manual_addition() {
    let (ctx1, _io1, r1) = run_program("x = 2\nx += 3", Vec::new());
    let (ctx2, _io2, r2) = run_program("x = 2\nx = x + 3", Vec::new());
    assert!(r1.is_ok());
    assert!(r2.is_ok());
    assert_eq!(ctx1.get("x"), ctx2.get("x"));
}

#[test]
fn rebinding_takes_last_write() {
    let (ctx, _io, r) = run_program("x = 1\nx = 7", Vec::new());
    assert!(r.is_ok());
    assert_eq!(ctx.get("x"), Some(7));
}

#[test]
fn unbound_name_error_points_at_leaf() {
    let (_ctx, _io, r) = run_program("print(y)", Vec::new());
    let err = r.unwrap_err();
    // the span is the `y` leaf's span, not the whole statement's
    assert_eq!(
        err,
        Error {
            kind: Kind::Interpretation,
            span: Span {
                start: Loc { row: 1, col: 7 },
                end: Loc { row: 1, col: 7 },
            },
        }
    );
}

#[test]
fn pass_changes_nothing() {
    let (ctx, io, r) = run_program("x = 2\npass\npass\npass", Vec::new());
    assert!(r.is_ok());
    assert_eq!(ctx.get("x"), Some(2));
    assert_eq!(io.outputs().len(), 0);
}

#[test]
fn print_records_value() {
    let (_ctx, io, r) = run_program("print(2 + 5)", Vec::new());
    assert!(r.is_ok());
    assert_eq!(io.outputs(), &vec![OutEvent::Print(7)]);
}

#[test]
fn input_reads_scripted_line() {
    let (ctx, io, r) = run_program("x = input(\"n?\")\nprint(x)", vec!["5"]);
    assert!(r.is_ok());
    assert_eq!(ctx.get("x"), Some(5));
    assert_eq!(
        io.outputs(),
        &vec![OutEvent::Prompt("n?".to_string()), OutEvent::Print(5)]
    );
}

#[test]
fn input_accepts_trailing_newline() {
    let (ctx, _io, r) = run_program("x = input(\"n?\")", vec!["-12\n"]);
    assert!(r.is_ok());
    assert_eq!(ctx.get("x"), Some(-12));
}

#[test]
fn input_parses_extreme_values() {
    let (ctx, _io, r) = run_program("x = input(\"a\")\ny = input(\"b\")", vec![
        "-2147483648",
        "2147483647",
    ]);
    assert!(r.is_ok());
    assert_eq!(ctx.get("x"), Some(i32::MIN));
    assert_eq!(ctx.get("y"), Some(i32::MAX));
}

#[test]
fn malformed_input_is_interpretation_error() {
    let (_ctx, _io, r) = run_program("x = input(\"n?\")", vec!["abc"]);
    let err = r.unwrap_err();
    assert_eq!(err.kind, Kind::Interpretation);
}

#[test]
fn overflowing_input_is_interpretation_error() {
    let (_ctx, _io, r) = run_program("x = input(\"n?\")", vec!["2147483648"]);
    let err = r.unwrap_err();
    assert_eq!(err.kind, Kind::Interpretation);
}

#[test]
fn exhausted_input_is_interpretation_error() {
    let (_ctx, _io, r) = run_program("x = input(\"n?\")", Vec::new());
    let err = r.unwrap_err();
    assert_eq!(err.kind, Kind::Interpretation);
}

#[test]
fn error_stops_later_statements() {
    let (_ctx, io, r) = run_program("print(1)\nprint(y)\nprint(2)", Vec::new());
    assert!(r.is_err());
    assert_eq!(io.outputs(), &vec![OutEvent::Print(1)]);
}

#[test]
fn run_whole_source() {
    let mut ctx = Context::new();
    let mut io = Io::scripted(vec!["3".to_string()]);
    let r = Prgm::run("x = input(\"n?\")\nprint(x * x)", &mut ctx, &mut io);
    assert!(r.is_ok());
    assert_eq!(ctx.get("x"), Some(3));
    assert_eq!(
        io.outputs(),
        &vec![OutEvent::Prompt("n?".to_string()), OutEvent::Print(9)]
    );
}

#[test]
fn run_expression_line() {
    let mut ctx = Context::new();
    let mut io = Io::scripted(Vec::new());
    assert_eq!(Expn::run("2 + 2 * 4", &mut ctx, &mut io).unwrap(), 10);
}

#[test]
fn parse_and_eval_expression() {
    let tokens = Tokenizer::lex("2 + 2 * 4").unwrap();
    let mut ctx = Context::new();
    let mut io = Io::scripted(Vec::new());
    assert_eq!(Expn::parse_and_eval(tokens, &mut ctx, &mut io).unwrap(), 10);
}
