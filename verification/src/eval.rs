//! The evaluator: a moving, depth-first walk of the syntax tree against a
//! mutable environment and an input/output sink.
//!
//! The meaning of every construct is given by the mathematical big-step
//! interpreter `spec_eval_*` over the tree's shape, the environment map
//! and the scripted input/output state. The executable evaluator is proved
//! to return exactly its result whenever the input source is determined:
//! always over scripted input, and for input-free trees in console mode.
//! Over console input only the frame facts hold — whatever line came back,
//! the recorded output grows only at the end and the script is untouched.
//!
//! Arithmetic policy: `+`, `-`, `*` and exponentiation wrap on 32-bit
//! overflow; division truncates toward zero, and the remainder is the one
//! consistent with that division; division or remainder by zero is an
//! interpretation error at the operation's span; a negative exponent
//! yields zero.

use vstd::prelude::*;

use crate::ast::{
    spec_span_expn, BinOp, Blck, Expn, ExpnV, Leaf, LeafData, LeafDataV, LeafV, Prgm, Stmt,
    StmtData, StmtDataV, StmtV,
};
use crate::context::Context;
use crate::error::{Error, ErrorV, Kind, KindV};
use crate::io::{Io, IoV, OutEvent, OutEventV};
use crate::num::spec_parse_i32;
use crate::Span;

verus! {

/// An interpretation error at the given span.
pub open spec fn interp_at(span: Span) -> ErrorV {
    ErrorV { kind: KindV::Interpretation, span }
}

/// The shape of an executable value result.
pub open spec fn res_i32(r: Result<i32, Error>) -> Result<i32, ErrorV> {
    match r {
        Ok(v) => Ok(v),
        Err(e) => Err(e@),
    }
}

/// The shape of an executable unit result.
pub open spec fn res_unit(r: Result<(), Error>) -> Result<(), ErrorV> {
    match r {
        Ok(u) => Ok(u),
        Err(e) => Err(e@),
    }
}

/// The input/output state the mathematical interpreter threads through:
/// the scripted lines with the read cursor, and the recorded output.
pub struct EvalIo {
    pub inputs: Seq<Seq<char>>,
    pub cursor: int,
    pub outputs: Seq<OutEventV>,
}

/// The interpreter-visible part of an [`Io`].
pub open spec fn proj(io: IoV) -> EvalIo {
    EvalIo { inputs: io.inputs, cursor: io.cursor, outputs: io.outputs }
}

/// Truncating division: the quotient of the magnitudes, negated when the
/// signs differ, so the result rounds toward zero.
pub open spec fn trunc_div(a: int, b: int) -> int
    recommends
        b != 0,
{
    let q = (vstd::math::abs(a) / vstd::math::abs(b)) as int;
    if (a < 0) != (b < 0) {
        -q
    } else {
        q
    }
}

/// The remainder consistent with [`trunc_div`]: the remainder of the
/// magnitudes, carrying the dividend's sign.
pub open spec fn trunc_rem(a: int, b: int) -> int
    recommends
        b != 0,
{
    let r = (vstd::math::abs(a) % vstd::math::abs(b)) as int;
    if a < 0 {
        -r
    } else {
        r
    }
}

/// `base` raised to `exp`, wrapping on 32-bit overflow at each step.
pub open spec fn spec_pow(base: i32, exp: nat) -> i32
    decreases exp,
{
    if exp == 0 {
        1i32
    } else {
        spec_pow(base, (exp - 1) as nat).wrapping_mul(base)
    }
}

/// What applying a binary operator to two values yields: a value, or an
/// interpretation error at `span` for a division or remainder by zero.
pub open spec fn spec_apply(op: BinOp, l: i32, r: i32, span: Span) -> Result<i32, ErrorV> {
    match op {
        BinOp::Plus => Ok(l.wrapping_add(r)),
        BinOp::Minus => Ok(l.wrapping_sub(r)),
        BinOp::Times => Ok(l.wrapping_mul(r)),
        BinOp::Div => if r == 0 {
            Err(interp_at(span))
        } else {
            Ok(vstd::wrapping::i32_specs::signed_crop(trunc_div(l as int, r as int)))
        },
        BinOp::Mod => if r == 0 {
            Err(interp_at(span))
        } else {
            Ok(vstd::wrapping::i32_specs::signed_crop(trunc_rem(l as int, r as int)))
        },
        BinOp::Expt => if r < 0 {
            Ok(0i32)
        } else {
            Ok(spec_pow(l, r as nat))
        },
    }
}

/// Whether an expression contains an `input(...)` leaf.
pub open spec fn expn_has_input(e: ExpnV) -> bool
    decreases e,
{
    match e {
        ExpnV::Leaf(l) => l.data is Inpt,
        ExpnV::BinOp { left, right, op } => expn_has_input(*left) || expn_has_input(*right),
    }
}

/// Whether a statement contains an `input(...)` leaf.
pub open spec fn stmt_has_input(s: StmtV) -> bool {
    match s.data {
        StmtDataV::Asgn(name, e) => expn_has_input(e),
        StmtDataV::Pass => false,
        StmtDataV::Prnt(e) => expn_has_input(e),
    }
}

/// Whether any statement of the block contains an `input(...)` leaf.
pub open spec fn block_has_input(ss: Seq<StmtV>) -> bool {
    exists|i: int| 0 <= i < ss.len() && stmt_has_input(#[trigger] ss[i])
}

/// Evaluating a leaf: a name looks its value up, failing at the leaf's
/// span if unbound; a literal gives its value, wrapped into the signed
/// range; `input` writes its prompt, consumes one line, and parses it,
/// failing at the leaf's span when the source is exhausted or the line is
/// not an integer.
pub open spec fn spec_eval_leaf(l: LeafV, ctx: Map<Seq<char>, i32>, io: EvalIo) -> (Result<
    i32,
    ErrorV,
>, EvalIo) {
    match l.data {
        LeafDataV::Name(s) => if ctx.contains_key(s) {
            (Ok(ctx[s]), io)
        } else {
            (Err(interp_at(l.span)), io)
        },
        LeafDataV::Nmbr(n) => (Ok(vstd::wrapping::i32_specs::signed_crop(n as int)), io),
        LeafDataV::Inpt(prompt) => {
            let io1 = EvalIo {
                inputs: io.inputs,
                cursor: io.cursor,
                outputs: io.outputs.push(OutEventV::Prompt(prompt)),
            };
            if io.cursor < io.inputs.len() {
                let io2 = EvalIo {
                    inputs: io1.inputs,
                    cursor: io1.cursor + 1,
                    outputs: io1.outputs,
                };
                match spec_parse_i32(io.inputs[io.cursor]) {
                    Some(v) => (Ok(v), io2),
                    None => (Err(interp_at(l.span)), io2),
                }
            } else {
                (Err(interp_at(l.span)), io1)
            }
        },
    }
}

/// Evaluating an expression: left child, then right child, strictly left
/// to right, then the operator; the first error aborts the walk.
pub open spec fn spec_eval_expn(e: ExpnV, ctx: Map<Seq<char>, i32>, io: EvalIo) -> (Result<
    i32,
    ErrorV,
>, EvalIo)
    decreases e,
{
    match e {
        ExpnV::Leaf(l) => spec_eval_leaf(l, ctx, io),
        ExpnV::BinOp { left, right, op } => {
            let lstep = spec_eval_expn(*left, ctx, io);
            match lstep.0 {
                Err(er) => (Err(er), lstep.1),
                Ok(lv) => {
                    let rstep = spec_eval_expn(*right, ctx, lstep.1);
                    match rstep.0 {
                        Err(er) => (Err(er), rstep.1),
                        Ok(rv) => (spec_apply(op, lv, rv, spec_span_expn(e)), rstep.1),
                    }
                },
            }
        },
    }
}

/// Evaluating a statement: an assignment binds the value of its
/// right-hand side; `print` records the value; `pass` does nothing.
pub open spec fn spec_eval_stmt(s: StmtV, ctx: Map<Seq<char>, i32>, io: EvalIo) -> (Result<
    (),
    ErrorV,
>, Map<Seq<char>, i32>, EvalIo) {
    match s.data {
        StmtDataV::Asgn(name, e) => {
            let step = spec_eval_expn(e, ctx, io);
            match step.0 {
                Ok(v) => (Ok(()), ctx.insert(name, v), step.1),
                Err(er) => (Err(er), ctx, step.1),
            }
        },
        StmtDataV::Pass => (Ok(()), ctx, io),
        StmtDataV::Prnt(e) => {
            let step = spec_eval_expn(e, ctx, io);
            match step.0 {
                Ok(v) => (Ok(()), ctx, EvalIo {
                    inputs: step.1.inputs,
                    cursor: step.1.cursor,
                    outputs: step.1.outputs.push(OutEventV::Print(v)),
                }),
                Err(er) => (Err(er), ctx, step.1),
            }
        },
    }
}

/// Evaluating a block: its statements in order, short-circuiting on the
/// first error.
pub open spec fn spec_eval_block(ss: Seq<StmtV>, ctx: Map<Seq<char>, i32>, io: EvalIo) -> (Result<
    (),
    ErrorV,
>, Map<Seq<char>, i32>, EvalIo)
    decreases ss.len(),
{
    if ss.len() == 0 {
        (Ok(()), ctx, io)
    } else {
        let step = spec_eval_stmt(ss[0], ctx, io);
        match step.0 {
            Err(er) => (Err(er), step.1, step.2),
            Ok(u) => spec_eval_block(ss.subrange(1, ss.len() as int), step.1, step.2),
        }
    }
}

/// One prefix step: a sequence is a prefix of itself extended.
proof fn lemma_prefix_push(a: Seq<OutEventV>, x: OutEventV)
    ensures
        a.is_prefix_of(a.push(x)),
{
    assert(a =~= a.push(x).take(a.len() as int));
}

/// Prefixes chain.
proof fn lemma_prefix_trans(a: Seq<OutEventV>, b: Seq<OutEventV>, c: Seq<OutEventV>)
    requires
        a.is_prefix_of(b),
        b.is_prefix_of(c),
    ensures
        a.is_prefix_of(c),
{
    assert(c.take(a.len() as int) =~= b.take(a.len() as int));
}

/// Raise a value to a nonnegative power, wrapping on overflow.
pub fn pow_wrapping(base: i32, exp: u32) -> (r: i32)
    ensures
        r == spec_pow(base, exp as nat),
{
    let mut result: i32 = 1;
    let mut k: u32 = 0;
    while k < exp
        invariant
            k <= exp,
            result == spec_pow(base, k as nat),
        decreases exp - k,
    {
        result = result.wrapping_mul(base);
        k = k + 1;
        proof {
            assert(spec_pow(base, k as nat) == spec_pow(base, (k - 1) as nat).wrapping_mul(base));
        }
    }
    result
}

// The magnitude of a value, as the unsigned type.
fn magnitude(a: i32) -> (r: u32)
    ensures
        r as int == vstd::math::abs(a as int),
{
    if a >= 0 {
        a as u32
    } else if a == i32::MIN {
        0x8000_0000u32
    } else {
        (-a) as u32
    }
}

/// Divide, truncating toward zero; the one overflowing case, the minimum
/// value divided by minus one, wraps to the minimum value.
pub fn div_trunc(a: i32, b: i32) -> (r: i32)
    requires
        b != 0,
    ensures
        r == vstd::wrapping::i32_specs::signed_crop(trunc_div(a as int, b as int)),
{
    let am = magnitude(a);
    let bm = magnitude(b);
    let q = am / bm;
    proof {
        assert(q <= am) by (nonlinear_arith)
            requires
                q == am / bm,
                bm >= 1,
        ;
    }
    let neg = (a < 0) != (b < 0);
    if neg {
        if q == 0x8000_0000u32 {
            i32::MIN
        } else {
            -(q as i32)
        }
    } else {
        if q == 0x8000_0000u32 {
            i32::MIN
        } else {
            q as i32
        }
    }
}

/// The remainder consistent with [`div_trunc`]: it carries the dividend's
/// sign and its magnitude is below the divisor's.
pub fn rem_trunc(a: i32, b: i32) -> (r: i32)
    requires
        b != 0,
    ensures
        r == vstd::wrapping::i32_specs::signed_crop(trunc_rem(a as int, b as int)),
{
    let am = magnitude(a);
    let bm = magnitude(b);
    let m = am % bm;
    proof {
        assert(m < bm);
    }
    if a < 0 {
        -(m as i32)
    } else {
        m as i32
    }
}

impl BinOp {
    /// Apply this operator to two values, exactly as [`spec_apply`]
    /// describes; `span` locates a division or remainder by zero.
    pub fn eval(self, lhs: i32, rhs: i32, span: Span) -> (r: Result<i32, Error>)
        ensures
            res_i32(r) == spec_apply(self, lhs, rhs, span),
    {
        match self {
            BinOp::Plus => Ok(lhs.wrapping_add(rhs)),
            BinOp::Minus => Ok(lhs.wrapping_sub(rhs)),
            BinOp::Times => Ok(lhs.wrapping_mul(rhs)),
            BinOp::Div => if rhs == 0 {
                Err(Error { kind: Kind::Interpretation, span })
            } else {
                Ok(div_trunc(lhs, rhs))
            },
            BinOp::Mod => if rhs == 0 {
                Err(Error { kind: Kind::Interpretation, span })
            } else {
                Ok(rem_trunc(lhs, rhs))
            },
            BinOp::Expt => if rhs < 0 {
                Ok(0)
            } else {
                Ok(pow_wrapping(lhs, rhs as u32))
            },
        }
    }
}

impl Leaf {
    /// Evaluate this leaf, as [`spec_eval_leaf`] describes.
    pub fn eval(self, ctx: &mut Context, io: &mut Io) -> (r: Result<i32, Error>)
        ensures
            final(ctx)@ == old(ctx)@,
            final(io)@.console == old(io)@.console,
            final(io)@.inputs == old(io)@.inputs,
            old(io)@.console ==> final(io)@.cursor == old(io)@.cursor,
            old(io)@.outputs.is_prefix_of(final(io)@.outputs),
            (!old(io)@.console || !(self@.data is Inpt)) ==> ({
                let step = spec_eval_leaf(self@, old(ctx)@, proj(old(io)@));
                res_i32(r) == step.0 && proj(final(io)@) == step.1
            }),
    {
        let span = self.span;
        match self.data {
            LeafData::Name(s) => {
                match ctx.get(s.as_str()) {
                    Some(v) => Ok(v),
                    None => Err(Error { kind: Kind::Interpretation, span }),
                }
            },
            LeafData::Nmbr(n) => {
                if n <= 0x7fff_ffffu32 {
                    Ok(n as i32)
                } else {
                    Ok(((n as i64) - 0x1_0000_0000i64) as i32)
                }
            },
            LeafData::Inpt(prompt) => {
                let ghost pv = prompt@;
                let ghost before = io@.outputs;
                io.emit(OutEvent::Prompt(prompt));
                proof {
                    lemma_prefix_push(before, OutEventV::Prompt(pv));
                }
                match io.read_line() {
                    None => Err(Error { kind: Kind::Interpretation, span }),
                    Some(line) => match crate::num::parse_i32(line.as_str()) {
                        Some(v) => Ok(v),
                        None => Err(Error { kind: Kind::Interpretation, span }),
                    },
                }
            },
        }
    }
}

impl Expn {
    /// Evaluate this expression, as [`spec_eval_expn`] describes: the
    /// environment is never changed by an expression.
    pub fn eval(self, ctx: &mut Context, io: &mut Io) -> (r: Result<i32, Error>)
        ensures
            final(ctx)@ == old(ctx)@,
            final(io)@.console == old(io)@.console,
            final(io)@.inputs == old(io)@.inputs,
            old(io)@.console ==> final(io)@.cursor == old(io)@.cursor,
            old(io)@.outputs.is_prefix_of(final(io)@.outputs),
            (!old(io)@.console || !expn_has_input(self@)) ==> ({
                let step = spec_eval_expn(self@, old(ctx)@, proj(old(io)@));
                res_i32(r) == step.0 && proj(final(io)@) == step.1
            }),
        decreases self,
    {
        let ghost e = self@;
        match self {
            Expn::Leaf(l) => l.eval(ctx, io),
            Expn::BinOp { left, right, op } => {
                let span = Span { start: left.span().start, end: right.span().end };
                let ghost mid0 = io@.outputs;
                let lv = match (*left).eval(ctx, io) {
                    Ok(v) => v,
                    Err(er) => {
                        return Err(er);
                    },
                };
                let ghost mid1 = io@.outputs;
                let rv = match (*right).eval(ctx, io) {
                    Ok(v) => v,
                    Err(er) => {
                        proof {
                            lemma_prefix_trans(mid0, mid1, io@.outputs);
                        }
                        return Err(er);
                    },
                };
                proof {
                    lemma_prefix_trans(mid0, mid1, io@.outputs);
                }
                op.eval(lv, rv, span)
            },
        }
    }
}

impl Stmt {
    /// Evaluate this statement, as [`spec_eval_stmt`] describes.
    pub fn eval(self, ctx: &mut Context, io: &mut Io) -> (r: Result<(), Error>)
        ensures
            final(io)@.console == old(io)@.console,
            final(io)@.inputs == old(io)@.inputs,
            old(io)@.console ==> final(io)@.cursor == old(io)@.cursor,
            old(io)@.outputs.is_prefix_of(final(io)@.outputs),
            (!old(io)@.console || !stmt_has_input(self@)) ==> ({
                let step = spec_eval_stmt(self@, old(ctx)@, proj(old(io)@));
                res_unit(r) == step.0 && final(ctx)@ == step.1 && proj(final(io)@) == step.2
            }),
    {
        match self.data {
            StmtData::Asgn(name, e) => {
                match e.eval(ctx, io) {
                    Ok(v) => {
                        ctx.set(name, v);
                        Ok(())
                    },
                    Err(er) => Err(er),
                }
            },
            StmtData::Pass => Ok(()),
            StmtData::Prnt(e) => {
                let ghost mid0 = io@.outputs;
                match e.eval(ctx, io) {
                    Ok(v) => {
                        let ghost mid1 = io@.outputs;
                        io.emit(OutEvent::Print(v));
                        proof {
                            lemma_prefix_push(mid1, OutEventV::Print(v));
                            lemma_prefix_trans(mid0, mid1, io@.outputs);
                        }
                        Ok(())
                    },
                    Err(er) => Err(er),
                }
            },
        }
    }
}

impl Blck {
    /// Evaluate this block's statements in order, as [`spec_eval_block`]
    /// describes, short-circuiting on the first error.
    #[verifier::loop_isolation(false)]
    pub fn eval(self, ctx: &mut Context, io: &mut Io) -> (r: Result<(), Error>)
        ensures
            final(io)@.console == old(io)@.console,
            final(io)@.inputs == old(io)@.inputs,
            old(io)@.console ==> final(io)@.cursor == old(io)@.cursor,
            old(io)@.outputs.is_prefix_of(final(io)@.outputs),
            (!old(io)@.console || !block_has_input(self@)) ==> ({
                let step = spec_eval_block(self@, old(ctx)@, proj(old(io)@));
                res_unit(r) == step.0 && final(ctx)@ == step.1 && proj(final(io)@) == step.2
            }),
    {
        let ghost ss0 = self@;
        let ghost ctx0 = old(ctx)@;
        let ghost io0 = proj(old(io)@);
        let ghost cond = !old(io)@.console || !block_has_input(ss0);
        let mut stmts = self.stmts;
        proof {
            assert(stmts@.map_values(|s: Stmt| s@) =~= ss0);
        }
        loop
            invariant
                io@.console == old(io)@.console,
                io@.inputs == old(io)@.inputs,
                old(io)@.console ==> io@.cursor == old(io)@.cursor,
                old(io)@.outputs.is_prefix_of(io@.outputs),
                cond == (!old(io)@.console || !block_has_input(ss0)),
                cond ==> spec_eval_block(ss0, ctx0, io0) == spec_eval_block(
                    stmts@.map_values(|s: Stmt| s@),
                    ctx@,
                    proj(io@),
                ),
                cond && old(io)@.console ==> !block_has_input(stmts@.map_values(|s: Stmt| s@)),
            decreases stmts@.len(),
        {
            let ghost cur = stmts@.map_values(|s: Stmt| s@);
            if stmts.len() == 0 {
                return Ok(());
            }
            let st = stmts.remove(0);
            proof {
                assert(st@ == cur[0]);
                assert(stmts@.map_values(|s: Stmt| s@) =~= cur.subrange(1, cur.len() as int));
                if cond && old(io)@.console {
                    assert(!stmt_has_input(cur[0]));
                    assert forall|j: int|
                        0 <= j < cur.subrange(1, cur.len() as int).len() implies !stmt_has_input(
                        #[trigger] cur.subrange(1, cur.len() as int)[j],
                    ) by {
                        assert(cur.subrange(1, cur.len() as int)[j] == cur[j + 1]);
                    }
                }
            }
            let ghost mid0 = io@.outputs;
            match st.eval(ctx, io) {
                Err(er) => {
                    proof {
                        lemma_prefix_trans(old(io)@.outputs, mid0, io@.outputs);
                    }
                    return Err(er);
                },
                Ok(u) => {
                    proof {
                        lemma_prefix_trans(old(io)@.outputs, mid0, io@.outputs);
                    }
                },
            }
        }
    }
}

/// Raising any value to a negative power evaluates to zero.
pub proof fn lemma_negative_exponent(l: i32, r: i32, span: Span)
    requires
        r < 0,
    ensures
        spec_apply(BinOp::Expt, l, r, span) == Ok::<i32, ErrorV>(0i32),
{
}

/// Evaluating `pass` never changes the environment, the input source or
/// the recorded output, and never fails — however many times it runs.
pub proof fn lemma_pass_no_effect(s: StmtV, ctx: Map<Seq<char>, i32>, io: EvalIo)
    requires
        s.data is Pass,
    ensures
        spec_eval_stmt(s, ctx, io) == (Ok::<(), ErrorV>(()), ctx, io),
{
}

/// Referencing an unbound name fails with an interpretation error whose
/// span is the name leaf's own span, and changes nothing.
pub proof fn lemma_unbound_name_error(l: LeafV, ctx: Map<Seq<char>, i32>, io: EvalIo)
    requires
        l.data matches LeafDataV::Name(nm) && !ctx.contains_key(nm),
    ensures
        spec_eval_leaf(l, ctx, io) == (Err::<i32, ErrorV>(interp_at(l.span)), io),
        spec_eval_expn(ExpnV::Leaf(l), ctx, io) == (Err::<i32, ErrorV>(interp_at(l.span)), io),
{
}

/// The addition synthesized for `name += rhs` evaluates exactly as the
/// manually written `name + rhs` does, whatever span the synthesized name
/// leaf carries, whenever the name is bound.
pub proof fn lemma_desugared_addition(
    nm: Seq<char>,
    sp1: Span,
    sp2: Span,
    rhs: ExpnV,
    ctx: Map<Seq<char>, i32>,
    io: EvalIo,
)
    requires
        ctx.contains_key(nm),
    ensures
        spec_eval_expn(
            ExpnV::BinOp {
                left: Box::new(ExpnV::Leaf(LeafV { data: LeafDataV::Name(nm), span: sp1 })),
                right: Box::new(rhs),
                op: BinOp::Plus,
            },
            ctx,
            io,
        ) == spec_eval_expn(
            ExpnV::BinOp {
                left: Box::new(ExpnV::Leaf(LeafV { data: LeafDataV::Name(nm), span: sp2 })),
                right: Box::new(rhs),
                op: BinOp::Plus,
            },
            ctx,
            io,
        ),
{
    let e1 = ExpnV::BinOp {
        left: Box::new(ExpnV::Leaf(LeafV { data: LeafDataV::Name(nm), span: sp1 })),
        right: Box::new(rhs),
        op: BinOp::Plus,
    };
    let e2 = ExpnV::BinOp {
        left: Box::new(ExpnV::Leaf(LeafV { data: LeafDataV::Name(nm), span: sp2 })),
        right: Box::new(rhs),
        op: BinOp::Plus,
    };
    assert(spec_eval_expn(ExpnV::Leaf(LeafV { data: LeafDataV::Name(nm), span: sp1 }), ctx, io)
        == (Ok::<i32, ErrorV>(ctx[nm]), io));
    assert(spec_eval_expn(ExpnV::Leaf(LeafV { data: LeafDataV::Name(nm), span: sp2 }), ctx, io)
        == (Ok::<i32, ErrorV>(ctx[nm]), io));
    let step = spec_eval_expn(rhs, ctx, io);
    match step.0 {
        Ok(rv) => {
            assert(spec_apply(BinOp::Plus, ctx[nm], rv, spec_span_expn(e1)) == spec_apply(
                BinOp::Plus,
                ctx[nm],
                rv,
                spec_span_expn(e2),
            ));
        },
        Err(_) => {},
    }
}

impl Prgm {
    /// Evaluate the whole program, as [`spec_eval_block`] describes.
    pub fn eval(self, ctx: &mut Context, io: &mut Io) -> (r: Result<(), Error>)
        ensures
            final(io)@.console == old(io)@.console,
            final(io)@.inputs == old(io)@.inputs,
            old(io)@.console ==> final(io)@.cursor == old(io)@.cursor,
            old(io)@.outputs.is_prefix_of(final(io)@.outputs),
            (!old(io)@.console || !block_has_input(self@)) ==> ({
                let step = spec_eval_block(self@, old(ctx)@, proj(old(io)@));
                res_unit(r) == step.0 && final(ctx)@ == step.1 && proj(final(io)@) == step.2
            }),
    {
        self.main.eval(ctx, io)
    }
}

} // verus!
