//! The abstract syntax tree: programs, blocks, statements, expressions and
//! leaves, each carrying exact source spans.
//!
//! Nodes are immutable once constructed and form a strict tree: each child
//! is exclusively owned by its parent. Leaf and statement nodes store their
//! spans directly; the span of a binary operation is derived from its
//! children, and the span of a block from its first and last statement.

use vstd::prelude::*;

use crate::error::{Error, ErrorV, Kind, KindV};
use crate::token::Op;
use crate::{loc_le, spec_origin, wf_span, Span};

verus! {

/// A binary operator of the expression language.
#[derive(Clone, Copy, PartialEq, Eq, Structural, Debug)]
pub enum BinOp {
    Plus,
    Minus,
    Times,
    /// Integer division, rounding toward zero.
    Div,
    /// The remainder consistent with `Div`.
    Mod,
    /// Exponentiation; a negative exponent yields zero.
    Expt,
}

/// A terminal expression: a name reference, a numeric literal, or an
/// interactive-input expression with its prompt.
#[derive(PartialEq, Eq, Debug)]
pub enum LeafData {
    Name(String),
    Nmbr(u32),
    Inpt(String),
}

/// The mathematical shape of a [`LeafData`].
pub enum LeafDataV {
    Name(Seq<char>),
    Nmbr(u32),
    Inpt(Seq<char>),
}

/// A leaf expression together with its span.
#[derive(PartialEq, Eq, Debug)]
pub struct Leaf {
    pub data: LeafData,
    pub span: Span,
}

/// The mathematical shape of a [`Leaf`].
pub struct LeafV {
    pub data: LeafDataV,
    pub span: Span,
}

impl View for LeafData {
    type V = LeafDataV;

    open spec fn view(&self) -> LeafDataV {
        match self {
            LeafData::Name(s) => LeafDataV::Name(s@),
            LeafData::Nmbr(n) => LeafDataV::Nmbr(*n),
            LeafData::Inpt(s) => LeafDataV::Inpt(s@),
        }
    }
}

impl View for Leaf {
    type V = LeafV;

    open spec fn view(&self) -> LeafV {
        LeafV { data: self.data@, span: self.span }
    }
}

/// An expression: a binary operation over two owned sub-expressions, or a
/// leaf.
#[derive(PartialEq, Eq, Debug)]
pub enum Expn {
    BinOp { left: Box<Expn>, right: Box<Expn>, op: BinOp },
    Leaf(Leaf),
}

/// The mathematical shape of an [`Expn`].
pub enum ExpnV {
    BinOp { left: Box<ExpnV>, right: Box<ExpnV>, op: BinOp },
    Leaf(LeafV),
}

impl View for Expn {
    type V = ExpnV;

    open spec fn view(&self) -> ExpnV
        decreases self,
    {
        match self {
            Expn::BinOp { left, right, op } => ExpnV::BinOp {
                left: Box::new((**left)@),
                right: Box::new((**right)@),
                op: *op,
            },
            Expn::Leaf(l) => ExpnV::Leaf(l@),
        }
    }
}

/// A statement: an assignment, the no-effect `pass`, or a print.
#[derive(PartialEq, Eq, Debug)]
pub enum StmtData {
    Asgn(String, Expn),
    Pass,
    Prnt(Expn),
}

/// The mathematical shape of a [`StmtData`].
pub enum StmtDataV {
    Asgn(Seq<char>, ExpnV),
    Pass,
    Prnt(ExpnV),
}

/// A statement together with its span.
#[derive(PartialEq, Eq, Debug)]
pub struct Stmt {
    pub data: StmtData,
    pub span: Span,
}

/// The mathematical shape of a [`Stmt`].
pub struct StmtV {
    pub data: StmtDataV,
    pub span: Span,
}

impl View for StmtData {
    type V = StmtDataV;

    open spec fn view(&self) -> StmtDataV {
        match self {
            StmtData::Asgn(name, e) => StmtDataV::Asgn(name@, e@),
            StmtData::Pass => StmtDataV::Pass,
            StmtData::Prnt(e) => StmtDataV::Prnt(e@),
        }
    }
}

impl View for Stmt {
    type V = StmtV;

    open spec fn view(&self) -> StmtV {
        StmtV { data: self.data@, span: self.span }
    }
}

/// A block: an ordered sequence of statements.
#[derive(PartialEq, Eq, Debug)]
pub struct Blck {
    pub stmts: Vec<Stmt>,
}

impl View for Blck {
    type V = Seq<StmtV>;

    open spec fn view(&self) -> Seq<StmtV> {
        self.stmts@.map_values(|s: Stmt| s@)
    }
}

/// A whole program: one block.
#[derive(PartialEq, Eq, Debug)]
pub struct Prgm {
    pub main: Blck,
}

impl View for Prgm {
    type V = Seq<StmtV>;

    open spec fn view(&self) -> Seq<StmtV> {
        self.main@
    }
}

/// The span of an expression: a leaf's own span, or the interval from the
/// left child's start to the right child's end.
pub open spec fn spec_span_expn(e: ExpnV) -> Span
    decreases e,
{
    match e {
        ExpnV::Leaf(l) => l.span,
        ExpnV::BinOp { left, right, op } => Span {
            start: spec_span_expn(*left).start,
            end: spec_span_expn(*right).end,
        },
    }
}

/// The span of a block: from its first statement's start to its last
/// statement's end, or a point at the origin if it is empty.
pub open spec fn spec_span_blck(stmts: Seq<StmtV>) -> Span {
    Span {
        start: if stmts.len() == 0 {
            spec_origin()
        } else {
            stmts[0].span.start
        },
        end: if stmts.len() == 0 {
            spec_origin()
        } else {
            stmts.last().span.end
        },
    }
}

/// Well-formedness of an expression: every node's span starts no later than
/// it ends, and a binary operation's left child ends no later than its
/// right child starts.
pub open spec fn wf_expn(e: ExpnV) -> bool
    decreases e,
{
    match e {
        ExpnV::Leaf(l) => wf_span(l.span),
        ExpnV::BinOp { left, right, op } => wf_expn(*left) && wf_expn(*right) && loc_le(
            spec_span_expn(*left).end,
            spec_span_expn(*right).start,
        ),
    }
}

/// Well-formedness of a statement: its own span and its expression, if any,
/// are well formed.
pub open spec fn wf_stmt(s: StmtV) -> bool {
    &&& wf_span(s.span)
    &&& match s.data {
        StmtDataV::Asgn(name, e) => wf_expn(e),
        StmtDataV::Pass => true,
        StmtDataV::Prnt(e) => wf_expn(e),
    }
}

/// Well-formedness of a block: every statement is well formed, and the
/// statements appear in source order.
pub open spec fn wf_blck(stmts: Seq<StmtV>) -> bool {
    &&& forall|i: int| 0 <= i < stmts.len() ==> wf_stmt(#[trigger] stmts[i])
    &&& forall|i: int, j: int|
        0 <= i < j < stmts.len() ==> loc_le(
            (#[trigger] stmts[i]).span.end,
            (#[trigger] stmts[j]).span.start,
        )
}

/// Every well-formed parsed node has a well-formed span: its start comes no
/// later than its end under the (row, column) order.
pub proof fn lemma_wf_expn_span(e: ExpnV)
    requires
        wf_expn(e),
    ensures
        wf_span(spec_span_expn(e)),
    decreases e,
{
    match e {
        ExpnV::Leaf(l) => {},
        ExpnV::BinOp { left, right, op } => {
            lemma_wf_expn_span(*left);
            lemma_wf_expn_span(*right);
        },
    }
}

/// A well-formed block's span is well formed, and its start and end match
/// its first and last statement exactly.
pub proof fn lemma_wf_blck_span(stmts: Seq<StmtV>)
    requires
        wf_blck(stmts),
    ensures
        wf_span(spec_span_blck(stmts)),
        stmts.len() > 0 ==> spec_span_blck(stmts).start == stmts[0].span.start
            && spec_span_blck(stmts).end == stmts.last().span.end,
{
    if stmts.len() > 0 {
        assert(wf_stmt(stmts[0]));
        assert(wf_stmt(stmts[stmts.len() - 1]));
        if stmts.len() > 1 {
            assert(loc_le(stmts[0].span.end, stmts[stmts.len() - 1].span.start));
        }
    }
}

impl Leaf {
    /// The source interval this leaf covers.
    pub fn span(&self) -> (s: Span)
        ensures
            s == self@.span,
    {
        self.span
    }
}

impl Expn {
    /// The source interval this expression covers.
    pub fn span(&self) -> (s: Span)
        ensures
            s == spec_span_expn(self@),
        decreases *self,
    {
        match self {
            Expn::Leaf(l) => l.span,
            Expn::BinOp { left, right, op } => Span {
                start: left.span().start,
                end: right.span().end,
            },
        }
    }
}

impl Stmt {
    /// The source interval this statement covers.
    pub fn span(&self) -> (s: Span)
        ensures
            s == self@.span,
    {
        self.span
    }
}

impl Blck {
    /// The source interval this block covers: from its first statement's
    /// start to its last statement's end, or a point at the origin if the
    /// block is empty.
    pub fn span(&self) -> (s: Span)
        ensures
            s == spec_span_blck(self@),
    {
        if self.stmts.len() == 0 {
            Span { start: crate::Loc { row: 1, col: 1 }, end: crate::Loc { row: 1, col: 1 } }
        } else {
            Span {
                start: self.stmts[0].span.start,
                end: self.stmts[self.stmts.len() - 1].span.end,
            }
        }
    }
}

impl Prgm {
    /// The source interval this program covers.
    pub fn span(&self) -> (s: Span)
        ensures
            s == spec_span_blck(self@),
    {
        self.main.span()
    }
}

/// The infix binary operator denoted by an operator token, if any:
/// assignment operators are not valid inside expressions.
pub open spec fn binop_of(op: Op) -> Option<BinOp> {
    match op {
        Op::Plus => Some(BinOp::Plus),
        Op::Minus => Some(BinOp::Minus),
        Op::Times => Some(BinOp::Times),
        Op::Div => Some(BinOp::Div),
        Op::Mod => Some(BinOp::Mod),
        Op::Expt => Some(BinOp::Expt),
        Op::Asgn => None,
        Op::AddEq => None,
    }
}

/// The (left, right) binding powers that drive precedence climbing.
/// Equal powers make an operator left-associative; a left power above the
/// right power makes it right-associative.
pub open spec fn spec_bp(op: BinOp) -> (u8, u8) {
    match op {
        BinOp::Plus | BinOp::Minus => (1u8, 2u8),
        BinOp::Times | BinOp::Div | BinOp::Mod => (3u8, 4u8),
        BinOp::Expt => (6u8, 5u8),
    }
}

impl BinOp {
    /// Map an operator token to an infix operator, or fail with a parser
    /// error at the token's span: `=` and `+=` cannot stand inside an
    /// expression.
    pub fn from_token(op: Op, span: Span) -> (r: Result<BinOp, Error>)
        ensures
            match binop_of(op) {
                Some(b) => r == Ok::<BinOp, Error>(b),
                None => r matches Err(e) && e@ == (ErrorV { kind: KindV::Parser(None), span }),
            },
    {
        match op {
            Op::Plus => Ok(BinOp::Plus),
            Op::Minus => Ok(BinOp::Minus),
            Op::Times => Ok(BinOp::Times),
            Op::Div => Ok(BinOp::Div),
            Op::Mod => Ok(BinOp::Mod),
            Op::Expt => Ok(BinOp::Expt),
            Op::Asgn => Err(Error { kind: Kind::Parser(None), span }),
            Op::AddEq => Err(Error { kind: Kind::Parser(None), span }),
        }
    }

    /// This operator's (left, right) binding powers.
    pub fn bp(self) -> (r: (u8, u8))
        ensures
            r == spec_bp(self),
    {
        match self {
            BinOp::Plus | BinOp::Minus => (1, 2),
            BinOp::Times | BinOp::Div | BinOp::Mod => (3, 4),
            BinOp::Expt => (6, 5),
        }
    }

    /// This operator's four-letter tag, as the tree dump writes it.
    pub fn as_str(self) -> (r: &'static str)
        ensures
            match self {
                BinOp::Plus => r@ == "Plus"@,
                BinOp::Minus => r@ == "Mnus"@,
                BinOp::Times => r@ == "Tmes"@,
                BinOp::Div => r@ == "IDiv"@,
                BinOp::Mod => r@ == "Modu"@,
                BinOp::Expt => r@ == "Expt"@,
            },
    {
        match self {
            BinOp::Plus => "Plus",
            BinOp::Minus => "Mnus",
            BinOp::Times => "Tmes",
            BinOp::Div => "IDiv",
            BinOp::Mod => "Modu",
            BinOp::Expt => "Expt",
        }
    }
}

} // verus!
