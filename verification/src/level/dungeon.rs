//! One row of the dungeon.
use vstd::prelude::*;

use crate::level::cells::{spec_nothing_cell, DungeonCell};

verus! {

/// The cells of one row of the dungeon, one per column.
#[derive(Debug, Copy, Clone)]
pub struct DungeonRow {
    pub cols: [DungeonCell; 80],
}

impl View for DungeonRow {
    type V = Seq<DungeonCell>;

    open spec fn view(&self) -> Seq<DungeonCell> {
        self.cols@
    }
}

impl DungeonRow {
    /// A row of empty cells.
    pub fn new() -> (r: Self)
        ensures
            r@.len() == 80,
            forall|i: int| 0 <= i < 80 ==> r@[i] == spec_nothing_cell(),
    {
        DungeonRow { cols: [DungeonCell::nothing(); 80] }
    }

    /// The cell in column `index`.
    pub fn get(&self, index: usize) -> (r: DungeonCell)
        requires
            index < 80,
        ensures
            r == self@[index as int],
    {
        self.cols[index]
    }

    /// The cell in column `index`, by reference.
    pub fn cell(&self, index: usize) -> (r: &DungeonCell)
        requires
            index < 80,
        ensures
            *r == self@[index as int],
    {
        &self.cols[index]
    }

    /// The cell in column `index`, to change in place.
    pub fn cell_mut(&mut self, index: usize) -> (r: &mut DungeonCell)
        requires
            index < 80,
        ensures
            *r == old(self)@[index as int],
            final(self)@ == old(self)@.update(index as int, *final(r)),
    {
        &mut self.cols[index]
    }

    /// Replaces the cell in column `index`.
    pub fn set(&mut self, index: usize, cell: DungeonCell)
        requires
            index < 80,
        ensures
            final(self)@ == old(self)@.update(index as int, cell),
    {
        self.cols[index] = cell;
    }
}

impl Default for DungeonRow {
    fn default() -> (r: Self)
        ensures
            forall|i: int| 0 <= i < 80 ==> r@[i] == spec_nothing_cell(),
    {
        Self::new()
    }
}

} // verus!
