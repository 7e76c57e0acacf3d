use vstd::prelude::*;

use std::collections::BTreeMap;

use crate::ast::{stmts_model, KindModel, ParameterKind, Statement, StatementKind, StmtModel};
use crate::text::{push_signed_decimal, signed_decimal};
use crate::program::{functions_model, Program, Table};

verus! {

broadcast use vstd::std_specs::btree::group_btree_axioms, vstd::laws_cmp::group_laws_cmp;

/// Why a run stopped at a statement.
#[derive(Clone, Copy, PartialEq, Eq, Structural, Debug)]
pub enum RuntimeError {
    /// A cell index, or the cursor, lies outside the table.
    IndexOutOfBounds(usize),
    /// No function has this id.
    UndefinedFunction(usize),
}

/// How a run ended early.
#[derive(Clone, Copy, PartialEq, Eq, Structural, Debug)]
pub enum Halt {
    Fault(RuntimeError),
    /// The run went deeper, or looped longer, than the fuel it was given.
    OutOfFuel,
}

/// What a run can see and change: the cells, the cursor, the saved register, and
/// the text written so far.
pub struct VmState {
    pub cells: Seq<isize>,
    pub curr: usize,
    pub saved: usize,
    pub output: Seq<char>,
}

pub open spec fn state_of(table: &Table, output: &Vec<char>) -> VmState {
    VmState { cells: table.array@, curr: table.curr, saved: table.saved, output: output@ }
}

/// A state after a step and how the step ended.
pub type Step = (VmState, Result<(), Halt>);

pub open spec fn done(st: VmState) -> Step {
    (st, Ok(()))
}

pub open spec fn fault(st: VmState, e: RuntimeError) -> Step {
    (st, Err(Halt::Fault(e)))
}

/// The cell at index `i`.
pub open spec fn cell_at(cells: Seq<isize>, i: usize) -> Result<isize, RuntimeError> {
    if i < cells.len() {
        Ok(cells[i as int])
    } else {
        Err(RuntimeError::IndexOutOfBounds(i))
    }
}

/// A number literal as a cell value: reduced modulo 2^64 into the range of `isize`.
pub open spec fn wrap_isize(v: usize) -> isize {
    if v <= isize::MAX {
        v as isize
    } else {
        (v - usize::MAX - 1) as isize
    }
}

/// The value a parameter stands for: the literal, or the cell at the saved index.
pub open spec fn param_value(cells: Seq<isize>, saved: usize, p: ParameterKind) -> Result<isize, RuntimeError> {
    match p {
        ParameterKind::Numeric(v) => Ok(wrap_isize(v)),
        ParameterKind::Saved => cell_at(cells, saved),
    }
}

/// The index a parameter stands for: the literal, or the saved index.
pub open spec fn param_index(saved: usize, p: ParameterKind) -> usize {
    match p {
        ParameterKind::Numeric(i) => i,
        ParameterKind::Saved => saved,
    }
}

/// `v + 1`, or `v` where that overflows.
pub open spec fn inc_cell(v: isize) -> isize {
    if v + 1 <= isize::MAX { (v + 1) as isize } else { v }
}

/// `v - 1`, or `v` where that overflows.
pub open spec fn dec_cell(v: isize) -> isize {
    if v - 1 >= isize::MIN { (v - 1) as isize } else { v }
}

/// `2 * v`, or `v` where that overflows.
pub open spec fn double_cell(v: isize) -> isize {
    if isize::MIN <= 2 * v <= isize::MAX { (2 * v) as isize } else { v }
}

/// `v / 2`, rounded toward zero.
pub open spec fn halve_cell(v: isize) -> isize {
    if v >= 0 { (v / 2) as isize } else { (-((-v) / 2)) as isize }
}

/// `-v`, or `v` where that overflows.
pub open spec fn flip_cell(v: isize) -> isize {
    if v == isize::MIN { v } else { (-v) as isize }
}

/// The remainder of `v` by 2, with the sign of `v`.
pub open spec fn mod2_cell(v: isize) -> isize {
    if v >= 0 { (v % 2) as isize } else { (-((-v) % 2)) as isize }
}

/// The character whose code is the low byte of `v`.
pub open spec fn latin1(v: int) -> char {
    ((v % 256) as u8) as char
}

/// `st` with the current cell set to `v`.
pub open spec fn set_current(st: VmState, v: isize) -> VmState {
    VmState { cells: st.cells.update(st.curr as int, v), ..st }
}

/// `st` with `text` written.
pub open spec fn write(st: VmState, text: Seq<char>) -> VmState {
    VmState { output: st.output + text, ..st }
}

/// The statements that change only the current cell, from its value alone.
pub open spec fn cell_op(k: KindModel, v: isize) -> Option<isize> {
    match k {
        KindModel::Inc => Some(inc_cell(v)),
        KindModel::Dec => Some(dec_cell(v)),
        KindModel::Mul => Some(double_cell(v)),
        KindModel::Div => Some(halve_cell(v)),
        KindModel::FlipSign => Some(flip_cell(v)),
        KindModel::Modulo => Some(mod2_cell(v)),
        KindModel::Define(d) => Some(wrap_isize(d)),
        _ => None,
    }
}

/// One statement that holds no other statements.
pub open spec fn step_simple(st: VmState, k: KindModel) -> Step {
    if cell_op(k, 0) is Some {
        match cell_at(st.cells, st.curr) {
            Err(e) => fault(st, e),
            Ok(v) => done(set_current(st, cell_op(k, v)->0)),
        }
    } else {
        match k {
            KindModel::MovR => done(
                VmState { curr: if st.curr + 1 < st.cells.len() { (st.curr + 1) as usize } else { st.curr }, ..st },
            ),
            KindModel::MovL => done(
                VmState { curr: if st.curr > 0 { (st.curr - 1) as usize } else { st.curr }, ..st },
            ),
            KindModel::Print => match cell_at(st.cells, st.curr) {
                Err(e) => fault(st, e),
                Ok(v) => done(write(st, signed_decimal(v as int))),
            },
            KindModel::PrintAscii => match cell_at(st.cells, st.curr) {
                Err(e) => fault(st, e),
                Ok(v) => done(write(st, seq![latin1(v as int)])),
            },
            KindModel::PrintNewline => done(write(st, seq!['\n'])),
            KindModel::Save => done(VmState { saved: st.curr, ..st }),
            KindModel::Copy(p) => match cell_at(st.cells, param_index(st.saved, p)) {
                Err(e) => fault(st, e),
                Ok(v) => match cell_at(st.cells, st.curr) {
                    Err(e) => fault(st, e),
                    Ok(_) => done(set_current(st, v)),
                },
            },
            KindModel::Goto(p) => {
                let i = param_index(st.saved, p);
                if i < st.cells.len() {
                    done(VmState { curr: i, ..st })
                } else {
                    fault(st, RuntimeError::IndexOutOfBounds(i))
                }
            },
            _ => done(st),
        }
    }
}

/// The body of the function `id`, if one is defined.
pub open spec fn function_body(funcs: Map<usize, StmtModel>, id: usize) -> Option<Seq<StmtModel>> {
    if funcs.contains_key(id) {
        match funcs[id].kind {
            KindModel::DefineFn(_, body) => Some(body),
            _ => None,
        }
    } else {
        None
    }
}

/// Runs statement `s` with `fuel`: each statement needs fuel, and passes one less to
/// the statements it holds and to the next pass of a loop.
pub open spec fn run_stmt(funcs: Map<usize, StmtModel>, st: VmState, s: StmtModel, fuel: nat) -> Step
    decreases fuel, 0int, 0int,
{
    if fuel == 0 {
        (st, Err(Halt::OutOfFuel))
    } else {
        match s.kind {
            KindModel::Loop(body, t) => {
                let term = match t {
                    Some(p) => param_value(st.cells, st.saved, p),
                    None => Ok(0isize),
                };
                match term {
                    Err(e) => fault(st, e),
                    Ok(v) => run_loop(funcs, st, body, v, (fuel - 1) as nat),
                }
            },
            KindModel::If(c, body) => match param_value(st.cells, st.saved, c) {
                Err(e) => fault(st, e),
                Ok(v) => match cell_at(st.cells, st.curr) {
                    Err(e) => fault(st, e),
                    Ok(x) => if x == v {
                        run_block(funcs, st, body, 0, (fuel - 1) as nat)
                    } else {
                        done(st)
                    },
                },
            },
            KindModel::CallFn(id) => match function_body(funcs, id) {
                None => fault(st, RuntimeError::UndefinedFunction(id)),
                Some(body) => run_block(funcs, st, body, 0, (fuel - 1) as nat),
            },
            _ => step_simple(st, s.kind),
        }
    }
}

/// Runs `body[i..]` in order, each statement with `fuel`, stopping at the first that halts.
pub open spec fn run_block(funcs: Map<usize, StmtModel>, st: VmState, body: Seq<StmtModel>, i: int, fuel: nat) -> Step
    decreases fuel, 1int, body.len() - i,
{
    if i < 0 || i >= body.len() {
        done(st)
    } else {
        let (st2, r) = run_stmt(funcs, st, body[i], fuel);
        if r is Err {
            (st2, r)
        } else {
            run_block(funcs, st2, body, i + 1, fuel)
        }
    }
}

/// Runs a loop whose end value is `term`: before each pass, stops if the cell under
/// the cursor holds `term`; each pass runs the body with one less fuel.
pub open spec fn run_loop(funcs: Map<usize, StmtModel>, st: VmState, body: Seq<StmtModel>, term: isize, fuel: nat) -> Step
    decreases fuel, 2int, 0int,
{
    if fuel == 0 {
        (st, Err(Halt::OutOfFuel))
    } else {
        match cell_at(st.cells, st.curr) {
            Err(e) => fault(st, e),
            Ok(x) => if x == term {
                done(st)
            } else {
                let (st2, r) = run_block(funcs, st, body, 0, (fuel - 1) as nat);
                if r is Err {
                    (st2, r)
                } else {
                    run_loop(funcs, st2, body, term, (fuel - 1) as nat)
                }
            },
        }
    }
}

/// Whether statement kind `k` overflows on the cell value `v`: an increment at the
/// top of the range, a decrement at its bottom, a doubling out of it. Halving never does.
pub open spec fn overflows(k: KindModel, v: isize) -> bool {
    match k {
        KindModel::Inc => v + 1 > isize::MAX,
        KindModel::Dec => v - 1 < isize::MIN,
        KindModel::Mul => 2 * v > isize::MAX || 2 * v < isize::MIN,
        KindModel::Div => v / 2 > isize::MAX || v / 2 < isize::MIN,
        _ => false,
    }
}

/// An increment, decrement, doubling or halving that would overflow the current
/// cell leaves the whole state as it was, and the run goes on.
pub proof fn lemma_overflow_is_no_op(funcs: Map<usize, StmtModel>, st: VmState, s: StmtModel, fuel: nat)
    requires
        fuel > 0,
        st.curr < st.cells.len(),
        overflows(s.kind, st.cells[st.curr as int]),
    ensures
        run_stmt(funcs, st, s, fuel) == done(st),
{
    assert(st.cells.update(st.curr as int, st.cells[st.curr as int]) =~= st.cells);
}

/// A loop that ends normally ends with the cell under the cursor, wherever the
/// cursor then stands, holding `term`.
proof fn lemma_run_loop_exit(funcs: Map<usize, StmtModel>, st: VmState, body: Seq<StmtModel>, term: isize, fuel: nat)
    ensures
        run_loop(funcs, st, body, term, fuel).1 is Ok ==> cell_at(
            run_loop(funcs, st, body, term, fuel).0.cells,
            run_loop(funcs, st, body, term, fuel).0.curr,
        ) == Ok::<isize, RuntimeError>(term),
    decreases fuel,
{
    if fuel > 0 {
        if let Ok(x) = cell_at(st.cells, st.curr) {
            if x != term {
                let st2 = run_block(funcs, st, body, 0, (fuel - 1) as nat).0;
                lemma_run_loop_exit(funcs, st2, body, term, (fuel - 1) as nat);
            }
        }
    }
}

/// The value that ends a loop statement: its parameter's value at the start, or 0.
pub open spec fn loop_term(st: VmState, t: Option<ParameterKind>) -> Result<isize, RuntimeError> {
    match t {
        Some(p) => param_value(st.cells, st.saved, p),
        None => Ok(0isize),
    }
}

/// A loop runs its body zero or more times. It checks before every pass, the
/// first included, the cell under the cursor at that moment: it runs no pass when
/// that cell already holds the end value, and when it ends normally the cell under
/// the cursor, wherever the body left it, holds the end value.
pub proof fn lemma_loop_checks_current_cell(
    funcs: Map<usize, StmtModel>,
    st: VmState,
    s: StmtModel,
    body: Seq<StmtModel>,
    t: Option<ParameterKind>,
    fuel: nat,
)
    requires
        s.kind == KindModel::Loop(body, t),
    ensures
        fuel > 1 && loop_term(st, t) is Ok && cell_at(st.cells, st.curr) == loop_term(st, t) ==> run_stmt(
            funcs,
            st,
            s,
            fuel,
        ) == done(st),
        run_stmt(funcs, st, s, fuel).1 is Ok ==> loop_term(st, t) is Ok && cell_at(
            run_stmt(funcs, st, s, fuel).0.cells,
            run_stmt(funcs, st, s, fuel).0.curr,
        ) == loop_term(st, t),
{
    if fuel > 0 {
        if let Ok(v) = loop_term(st, t) {
            lemma_run_loop_exit(funcs, st, body, v, (fuel - 1) as nat);
        }
    }
}

/// Copying from a literal index twice in a row changes nothing the second time.
pub proof fn lemma_copy_twice(funcs: Map<usize, StmtModel>, st: VmState, s: StmtModel, i: usize, fuel: nat)
    requires
        s.kind == KindModel::Copy(ParameterKind::Numeric(i)),
    ensures
        run_stmt(funcs, st, s, fuel).1 is Ok ==> run_stmt(funcs, run_stmt(funcs, st, s, fuel).0, s, fuel) == run_stmt(
            funcs,
            st,
            s,
            fuel,
        ),
{
    let first = run_stmt(funcs, st, s, fuel);
    if first.1 is Ok {
        let st1 = first.0;
        assert(st1.cells.update(st1.curr as int, st1.cells[i as int]) =~= st1.cells);
    }
}

/// The cell value of the number literal `v`.
fn wrap_literal(v: usize) -> (r: isize)
    ensures
        r == wrap_isize(v),
{
    if v <= isize::MAX as usize {
        v as isize
    } else {
        ((v - (isize::MAX as usize) - 1) as isize) + isize::MIN
    }
}

/// The character whose code is the low byte of `v`.
fn byte_char(v: isize) -> (r: char)
    ensures
        r == latin1(v as int),
{
    let m: isize = v % 256;
    let b: u8 = if m < 0 {
        (m + 256) as u8
    } else {
        m as u8
    };
    b as char
}

fn cell(table: &Table, i: usize) -> (r: Result<isize, Halt>)
    ensures
        r == match cell_at(table.array@, i) {
            Ok(v) => Ok::<isize, Halt>(v),
            Err(e) => Err(Halt::Fault(e)),
        },
{
    match table.index(i) {
        Some(v) => Ok(v),
        None => Err(Halt::Fault(RuntimeError::IndexOutOfBounds(i))),
    }
}

fn resolve_param(table: &Table, p: ParameterKind) -> (r: Result<isize, Halt>)
    ensures
        r == match param_value(table.array@, table.saved, p) {
            Ok(v) => Ok::<isize, Halt>(v),
            Err(e) => Err(Halt::Fault(e)),
        },
{
    match p {
        ParameterKind::Numeric(v) => Ok(wrap_literal(v)),
        ParameterKind::Saved => cell(table, table.saved),
    }
}

fn resolve_index(table: &Table, p: ParameterKind) -> (r: usize)
    ensures
        r == param_index(table.saved, p),
{
    match p {
        ParameterKind::Numeric(i) => i,
        ParameterKind::Saved => table.saved,
    }
}

/// Whether a run from `before` that ended in `after` with `r` is the step `spec`.
pub open spec fn ran(before_table: Table, after_table: Table, after_output: Vec<char>, r: Result<(), Halt>, spec: Step) -> bool {
    &&& after_table.wf()
    &&& after_table.size == before_table.size
    &&& (state_of(&after_table, &after_output), r) == spec
}

/// Runs one statement against `table`, writing to `output`.
pub fn execute_statement(
    functions: &BTreeMap<usize, Statement>,
    table: &mut Table,
    output: &mut Vec<char>,
    statement: &Statement,
    fuel: u64,
) -> (r: Result<(), Halt>)
    requires
        old(table).wf(),
    ensures
        ran(
            *old(table),
            *final(table),
            *final(output),
            r,
            run_stmt(functions_model(functions@), state_of(old(table), old(output)), statement@, fuel as nat),
        ),
    decreases fuel, 0int, 0int,
{
    if fuel == 0 {
        return Err(Halt::OutOfFuel);
    }
    let curr = table.curr;
    match &statement.kind {
        StatementKind::Inc => {
            let v = cell(table, curr)?;
            let n = match v.checked_add(1) {
                Some(x) => x,
                None => v,
            };
            table.set(curr, n);
            Ok(())
        },
        StatementKind::Dec => {
            let v = cell(table, curr)?;
            let n = match v.checked_sub(1) {
                Some(x) => x,
                None => v,
            };
            table.set(curr, n);
            Ok(())
        },
        StatementKind::Mul => {
            let v = cell(table, curr)?;
            let n = match v.checked_mul(2) {
                Some(x) => x,
                None => v,
            };
            table.set(curr, n);
            Ok(())
        },
        StatementKind::Div => {
            let v = cell(table, curr)?;
            let n = match v.checked_div(2) {
                Some(x) => x,
                None => v,
            };
            table.set(curr, n);
            Ok(())
        },
        StatementKind::FlipSign => {
            let v = cell(table, curr)?;
            let n = match v.checked_mul(-1) {
                Some(x) => x,
                None => v,
            };
            table.set(curr, n);
            Ok(())
        },
        StatementKind::Modulo => {
            let v = cell(table, curr)?;
            let n = match v.checked_rem(2) {
                Some(x) => x,
                None => v,
            };
            table.set(curr, n);
            Ok(())
        },
        StatementKind::Define(val) => {
            let _ = cell(table, curr)?;
            table.set(curr, wrap_literal(*val));
            Ok(())
        },
        StatementKind::MovR => {
            if table.size > 0 && table.curr < table.size - 1 {
                table.curr = table.curr + 1;
            }
            Ok(())
        },
        StatementKind::MovL => {
            if table.curr > 0 {
                table.curr = table.curr - 1;
            }
            Ok(())
        },
        StatementKind::Print => {
            let v = cell(table, curr)?;
            push_signed_decimal(output, v);
            Ok(())
        },
        StatementKind::PrintAscii => {
            let v = cell(table, curr)?;
            let c = byte_char(v);
            output.push(c);
            assert(output@ =~= old(output)@ + seq![c]);
            Ok(())
        },
        StatementKind::PrintNewline => {
            output.push('\n');
            assert(output@ =~= old(output)@ + seq!['\n']);
            Ok(())
        },
        StatementKind::Save => {
            table.saved = table.curr;
            Ok(())
        },
        StatementKind::Copy(param) => {
            let v = cell(table, resolve_index(table, *param))?;
            let _ = cell(table, curr)?;
            table.set(curr, v);
            Ok(())
        },
        StatementKind::Goto(param) => {
            let idx = resolve_index(table, *param);
            if idx < table.array.len() {
                table.curr = idx;
                Ok(())
            } else {
                Err(Halt::Fault(RuntimeError::IndexOutOfBounds(idx)))
            }
        },
        StatementKind::Loop(stmts, cndt) => {
            let term: isize = match cndt {
                Some(p) => resolve_param(table, *p)?,
                None => 0,
            };
            run_loop_body(functions, table, output, stmts, term, fuel - 1)
        },
        StatementKind::If(condition, stmts) => {
            let v = resolve_param(table, *condition)?;
            let x = cell(table, curr)?;
            if x == v {
                run_body(functions, table, output, stmts, fuel - 1)
            } else {
                Ok(())
            }
        },
        StatementKind::CallFn(id) => {
            match functions.get(id) {
                Some(defn) => match &defn.kind {
                    StatementKind::DefineFn(_, stmts) => run_body(functions, table, output, stmts, fuel - 1),
                    _ => Err(Halt::Fault(RuntimeError::UndefinedFunction(*id))),
                },
                None => Err(Halt::Fault(RuntimeError::UndefinedFunction(*id))),
            }
        },
        StatementKind::DefineFn(_, _) => Ok(()),
        StatementKind::Table(_) => Ok(()),
    }
}

/// Runs `body` in order, stopping at the first statement that halts.
pub fn run_body(
    functions: &BTreeMap<usize, Statement>,
    table: &mut Table,
    output: &mut Vec<char>,
    body: &Vec<Statement>,
    fuel: u64,
) -> (r: Result<(), Halt>)
    requires
        old(table).wf(),
    ensures
        ran(
            *old(table),
            *final(table),
            *final(output),
            r,
            run_block(functions_model(functions@), state_of(old(table), old(output)), stmts_model(body), 0, fuel as nat),
        ),
    decreases fuel, 1int, 0int,
{
    let ghost funcs = functions_model(functions@);
    let ghost b = stmts_model(body);
    let mut i: usize = 0;
    while i < body.len()
        invariant
            i <= body.len(),
            b == stmts_model(body),
            funcs == functions_model(functions@),
            table.wf(),
            table.size == old(table).size,
            run_block(funcs, state_of(old(table), old(output)), b, 0, fuel as nat) == run_block(
                funcs,
                state_of(table, output),
                b,
                i as int,
                fuel as nat,
            ),
        decreases body.len() - i,
    {
        let r = execute_statement(functions, table, output, &body[i], fuel);
        if r.is_err() {
            return r;
        }
        i += 1;
    }
    Ok(())
}

/// Runs a loop body until the cell under the cursor holds `term`, checking before each pass.
fn run_loop_body(
    functions: &BTreeMap<usize, Statement>,
    table: &mut Table,
    output: &mut Vec<char>,
    body: &Vec<Statement>,
    term: isize,
    fuel: u64,
) -> (r: Result<(), Halt>)
    requires
        old(table).wf(),
    ensures
        ran(
            *old(table),
            *final(table),
            *final(output),
            r,
            run_loop(functions_model(functions@), state_of(old(table), old(output)), stmts_model(body), term, fuel as nat),
        ),
    decreases fuel, 2int, 0int,
{
    let ghost funcs = functions_model(functions@);
    let ghost b = stmts_model(body);
    let mut f: u64 = fuel;
    loop
        invariant
            f <= fuel,
            b == stmts_model(body),
            funcs == functions_model(functions@),
            table.wf(),
            table.size == old(table).size,
            run_loop(funcs, state_of(old(table), old(output)), b, term, fuel as nat) == run_loop(
                funcs,
                state_of(table, output),
                b,
                term,
                f as nat,
            ),
        decreases f,
    {
        if f == 0 {
            return Err(Halt::OutOfFuel);
        }
        let x = cell(table, table.curr)?;
        if x == term {
            return Ok(());
        }
        let r = run_body(functions, table, output, body, f - 1);
        if r.is_err() {
            return r;
        }
        f = f - 1;
    }
}

/// Runs a parsed program.
pub struct Vm {
    pub program: Program,
    /// What the program wrote so far.
    pub output: Vec<char>,
}

impl Vm {
    /// The state a run sees.
    pub open spec fn state(&self) -> VmState {
        state_of(&self.program.table, &self.output)
    }

    /// The program's functions.
    pub open spec fn funcs(&self) -> Map<usize, StmtModel> {
        functions_model(self.program.functions@)
    }

    pub fn new(program: Program) -> (r: Vm)
        ensures
            r.program == program,
            r.output@ == Seq::<char>::empty(),
    {
        Vm { program, output: Vec::new() }
    }

    /// Runs one statement against the program's table and functions.
    pub fn execute(&mut self, statement: &Statement, fuel: u64) -> (r: Result<(), Halt>)
        requires
            old(self).program.table.wf(),
        ensures
            final(self).program.table.wf(),
            final(self).program.table.size == old(self).program.table.size,
            final(self).program.statements == old(self).program.statements,
            final(self).program.functions == old(self).program.functions,
            (final(self).state(), r) == run_stmt(old(self).funcs(), old(self).state(), statement@, fuel as nat),
    {
        execute_statement(&self.program.functions, &mut self.program.table, &mut self.output, statement, fuel)
    }

    /// Runs the body of the function definition `defn` against the program's table.
    pub fn callfn(&mut self, defn: &Statement, fuel: u64) -> (r: Result<(), Halt>)
        requires
            old(self).program.table.wf(),
            defn@.kind is DefineFn,
        ensures
            final(self).program.table.wf(),
            final(self).program.statements == old(self).program.statements,
            final(self).program.functions == old(self).program.functions,
            (final(self).state(), r) == run_block(
                old(self).funcs(),
                old(self).state(),
                defn@.kind->DefineFn_1,
                0,
                fuel as nat,
            ),
    {
        match &defn.kind {
            StatementKind::DefineFn(_, stmts) => run_body(
                &self.program.functions,
                &mut self.program.table,
                &mut self.output,
                stmts,
                fuel,
            ),
            _ => Ok(()),
        }
    }

    /// Runs the program's statements once, in order, each with `fuel`.
    pub fn run(&mut self, fuel: u64) -> (r: Result<(), Halt>)
        requires
            old(self).program.table.wf(),
        ensures
            final(self).program.table.wf(),
            final(self).program.statements == old(self).program.statements,
            final(self).program.functions == old(self).program.functions,
            (final(self).state(), r) == run_block(
                old(self).funcs(),
                old(self).state(),
                stmts_model(&old(self).program.statements),
                0,
                fuel as nat,
            ),
    {
        run_body(&self.program.functions, &mut self.program.table, &mut self.output, &self.program.statements, fuel)
    }
}

} // verus!
