//! A position in the dungeon.
use vstd::prelude::*;

verus! {

/// A row and a column of the dungeon.
#[derive(Debug, Copy, Clone, Eq, PartialEq, Structural)]
pub struct DungeonSpot {
    pub row: i64,
    pub col: i64,
}

impl DungeonSpot {
    /// The spot at `row`, `col`.
    pub fn new(row: i64, col: i64) -> (r: Self)
        ensures
            r.row == row && r.col == col,
    {
        DungeonSpot { row, col }
    }

    /// Whether this is the spot at `row`, `col`.
    pub fn is_at(&self, row: i64, col: i64) -> (r: bool)
        ensures
            r == (self.row == row && self.col == col),
    {
        self.row == row && self.col == col
    }
}

impl Default for DungeonSpot {
    fn default() -> (r: Self)
        ensures
            r.row == 0 && r.col == 0,
    {
        DungeonSpot { row: 0, col: 0 }
    }
}

/// A row and a column of the level, counted from zero.
#[derive(Debug, Copy, Clone, Eq, PartialEq, Structural)]
pub struct LevelSpot {
    pub row: usize,
    pub col: usize,
}

impl LevelSpot {
    /// The row and the column as signed numbers.
    pub fn i64(&self) -> (r: (i64, i64))
        requires
            self.row <= i64::MAX as usize,
            self.col <= i64::MAX as usize,
        ensures
            r == (self.row as i64, self.col as i64),
    {
        (self.row as i64, self.col as i64)
    }
}

} // verus!
