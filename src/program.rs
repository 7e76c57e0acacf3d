use vstd::prelude::*;

use std::collections::BTreeMap;

use crate::ast::{KindModel, Statement, StmtModel};

verus! {

/// The table size of a program that declares none.
pub const DEFAULT_TABLE_SIZE: usize = 256;

/// The value of the saved register before anything is saved in it: no cell has this index.
pub const UNSET: usize = usize::MAX;

/// `n` zero cells.
pub open spec fn zeros(n: nat) -> Seq<isize> {
    Seq::new(n, |i: int| 0isize)
}

/// The program's memory: a row of signed cells, a cursor, and the saved register.
#[derive(Debug)]
pub struct Table {
    pub array: Vec<isize>,
    pub size: usize,
    pub curr: usize,
    pub saved: usize,
}

impl Table {
    /// The row holds `size` cells.
    pub open spec fn wf(&self) -> bool {
        self.array.len() == self.size
    }

    /// A new table of `size` cells: all zero, the cursor on the first, the saved register unset.
    pub open spec fn is_fresh(&self, size: usize) -> bool {
        &&& self.wf()
        &&& self.size == size
        &&& self.array@ == zeros(size as nat)
        &&& self.curr == 0
        &&& self.saved == UNSET
    }

    /// A table of `size` zero cells, the cursor on the first, the saved register unset.
    pub fn new(size: usize) -> (r: Table)
        ensures
            r.wf(),
            r.size == size,
            r.is_fresh(size),
    {
        let mut array: Vec<isize> = Vec::new();
        let mut i: usize = 0;
        while i < size
            invariant
                i <= size,
                array@ == zeros(i as nat),
            decreases size - i,
        {
            array.push(0isize);
            i += 1;
            assert(array@ =~= zeros(i as nat));
        }
        Table { array, size, curr: 0, saved: UNSET }
    }

    /// The cell at `index`, if there is one.
    pub fn index(&self, index: usize) -> (r: Option<isize>)
        ensures
            r == if index < self.array.len() {
                Some(self.array@[index as int])
            } else {
                None::<isize>
            },
    {
        if index < self.array.len() {
            Some(self.array[index])
        } else {
            None
        }
    }

    /// Writes `value` into the cell at `index`; false, and no change, if there is none.
    pub fn set(&mut self, index: usize, value: isize) -> (r: bool)
        ensures
            r == (index < old(self).array.len()),
            final(self).size == old(self).size,
            final(self).curr == old(self).curr,
            final(self).saved == old(self).saved,
            final(self).array@ == if r {
                old(self).array@.update(index as int, value)
            } else {
                old(self).array@
            },
    {
        if index < self.array.len() {
            self.array.set(index, value);
            true
        } else {
            false
        }
    }
}

/// The functions that a sequence of top-level statements defines: each id maps to
/// the last definition with that id.
pub open spec fn functions_of(stmts: Seq<StmtModel>) -> Map<usize, StmtModel>
    decreases stmts.len(),
{
    if stmts.len() == 0 {
        Map::empty()
    } else {
        let before = functions_of(stmts.drop_last());
        match stmts.last().kind {
            KindModel::DefineFn(id, _) => before.insert(id, stmts.last()),
            _ => before,
        }
    }
}

/// The model of a map of function definitions.
pub open spec fn functions_model(m: Map<usize, Statement>) -> Map<usize, StmtModel> {
    m.map_values(|s: Statement| s@)
}

/// A parsed program: its statements, its functions by id, and its table.
#[derive(Debug)]
pub struct Program {
    pub statements: Vec<Statement>,
    pub functions: BTreeMap<usize, Statement>,
    pub table: Table,
    pub line: usize,
    pub col: usize,
}

impl Program {
    pub fn new(statements: Vec<Statement>, functions: BTreeMap<usize, Statement>, table: Table) -> (r: Program)
        ensures
            r.statements@ == statements@,
            r.functions@ == functions@,
            r.table == table,
            r.line == 1,
            r.col == 1,
    {
        Program { statements, functions, table, line: 1, col: 1 }
    }
}

} // verus!
