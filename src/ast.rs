use vstd::prelude::*;

use crate::lexer::{Token, TokenModel};

verus! {

broadcast use vstd::std_specs::vec::axiom_vec_index_decreases;

/// A statement's argument: a literal number, or the saved register.
#[derive(Clone, Copy, PartialEq, Eq, Structural, Debug)]
pub enum ParameterKind {
    Numeric(usize),
    Saved,
}

#[derive(Debug)]
pub enum StatementKind {
    Table(usize),
    Inc,
    Dec,
    Mul,
    Div,
    MovR,
    MovL,
    Print,
    Loop(Vec<Statement>, Option<ParameterKind>),
    Define(usize),
    If(ParameterKind, Vec<Statement>),
    Goto(ParameterKind),
    Save,
    PrintAscii,
    Copy(ParameterKind),
    Modulo,
    DefineFn(usize, Vec<Statement>),
    CallFn(usize),
    PrintNewline,
    FlipSign,
}

/// A node of the syntax tree, with the token that introduced it.
#[derive(Debug)]
pub struct Statement {
    pub kind: StatementKind,
    pub token: Token,
}

/// Mathematical model of a `StatementKind`: the same tree, with sequences for bodies.
pub enum KindModel {
    Table(usize),
    Inc,
    Dec,
    Mul,
    Div,
    MovR,
    MovL,
    Print,
    Loop(Seq<StmtModel>, Option<ParameterKind>),
    Define(usize),
    If(ParameterKind, Seq<StmtModel>),
    Goto(ParameterKind),
    Save,
    PrintAscii,
    Copy(ParameterKind),
    Modulo,
    DefineFn(usize, Seq<StmtModel>),
    CallFn(usize),
    PrintNewline,
    FlipSign,
}

/// Mathematical model of a `Statement`.
pub struct StmtModel {
    pub kind: KindModel,
    pub token: TokenModel,
}

/// The models of a sequence of statements.
pub open spec fn stmts_model(body: &Vec<Statement>) -> Seq<StmtModel>
    decreases body,
{
    Seq::new(
        body@.len(),
        |i: int|
            if 0 <= i < body@.len() {
                body@[i]@
            } else {
                vstd::pervasive::arbitrary()
            },
    )
}

impl View for Statement {
    type V = StmtModel;

    open spec fn view(&self) -> StmtModel
        decreases self,
    {
        StmtModel { kind: self.kind.model(), token: self.token@ }
    }
}

impl StatementKind {
    pub open spec fn model(&self) -> KindModel
        decreases self,
    {
        match self {
            StatementKind::Table(n) => KindModel::Table(*n),
            StatementKind::Inc => KindModel::Inc,
            StatementKind::Dec => KindModel::Dec,
            StatementKind::Mul => KindModel::Mul,
            StatementKind::Div => KindModel::Div,
            StatementKind::MovR => KindModel::MovR,
            StatementKind::MovL => KindModel::MovL,
            StatementKind::Print => KindModel::Print,
            StatementKind::Loop(body, t) => KindModel::Loop(stmts_model(body), *t),
            StatementKind::Define(v) => KindModel::Define(*v),
            StatementKind::If(p, body) => KindModel::If(*p, stmts_model(body)),
            StatementKind::Goto(p) => KindModel::Goto(*p),
            StatementKind::Save => KindModel::Save,
            StatementKind::PrintAscii => KindModel::PrintAscii,
            StatementKind::Copy(p) => KindModel::Copy(*p),
            StatementKind::Modulo => KindModel::Modulo,
            StatementKind::DefineFn(id, body) => KindModel::DefineFn(*id, stmts_model(body)),
            StatementKind::CallFn(id) => KindModel::CallFn(*id),
            StatementKind::PrintNewline => KindModel::PrintNewline,
            StatementKind::FlipSign => KindModel::FlipSign,
        }
    }

    /// A deep copy of this kind.
    pub fn duplicate(&self) -> (r: StatementKind)
        ensures
            r.model() == self.model(),
        decreases self,
    {
        match self {
            StatementKind::Table(n) => StatementKind::Table(*n),
            StatementKind::Inc => StatementKind::Inc,
            StatementKind::Dec => StatementKind::Dec,
            StatementKind::Mul => StatementKind::Mul,
            StatementKind::Div => StatementKind::Div,
            StatementKind::MovR => StatementKind::MovR,
            StatementKind::MovL => StatementKind::MovL,
            StatementKind::Print => StatementKind::Print,
            StatementKind::Loop(body, t) => StatementKind::Loop(duplicate_body(body), *t),
            StatementKind::Define(v) => StatementKind::Define(*v),
            StatementKind::If(p, body) => StatementKind::If(*p, duplicate_body(body)),
            StatementKind::Goto(p) => StatementKind::Goto(*p),
            StatementKind::Save => StatementKind::Save,
            StatementKind::PrintAscii => StatementKind::PrintAscii,
            StatementKind::Copy(p) => StatementKind::Copy(*p),
            StatementKind::Modulo => StatementKind::Modulo,
            StatementKind::DefineFn(id, body) => StatementKind::DefineFn(*id, duplicate_body(body)),
            StatementKind::CallFn(id) => StatementKind::CallFn(*id),
            StatementKind::PrintNewline => StatementKind::PrintNewline,
            StatementKind::FlipSign => StatementKind::FlipSign,
        }
    }
}

/// A deep copy of a sequence of statements.
pub fn duplicate_body(body: &Vec<Statement>) -> (r: Vec<Statement>)
    ensures
        stmts_model(&r) == stmts_model(body),
    decreases body,
{
    let mut out: Vec<Statement> = Vec::new();
    let mut i: usize = 0;
    while i < body.len()
        invariant
            i <= body.len(),
            out@.len() == i,
            forall|k: int| 0 <= k < i ==> (#[trigger] out@[k])@ == body@[k]@,
        decreases body.len() - i,
    {
        out.push(body[i].duplicate());
        i += 1;
    }
    assert(stmts_model(&out) =~= stmts_model(body));
    out
}

impl Statement {
    pub fn new(kind: StatementKind, token: Token) -> (r: Statement)
        ensures
            r@ == (StmtModel { kind: kind.model(), token: token@ }),
    {
        Statement { kind, token }
    }

    /// A deep copy of this statement.
    pub fn duplicate(&self) -> (r: Statement)
        ensures
            r@ == self@,
        decreases self,
    {
        Statement { kind: self.kind.duplicate(), token: self.token.duplicate() }
    }
}

} // verus!
