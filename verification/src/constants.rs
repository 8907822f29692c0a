//! Sizes and limits of the dungeon and of the rogue's progress.
use vstd::prelude::*;

verus! {

/// Rows of the screen, the message line and the stats line included.
pub const DROWS: usize = 24;
/// Columns of the dungeon.
pub const DCOLS: usize = 80;
/// First row of the dungeon below the message line.
pub const MIN_ROW: i64 = 1;
/// Row that separates the top band of rooms from the middle band.
pub const ROW1: i64 = 7;
/// Row that separates the middle band of rooms from the bottom band.
pub const ROW2: i64 = 15;
/// Column that separates the left band of rooms from the middle band.
pub const COL1: i64 = 26;
/// Column that separates the middle band of rooms from the right band.
pub const COL2: i64 = 52;
/// Rooms on a level, laid out three by three.
pub const MAX_ROOM: usize = 9;
/// The room number that asks `make_room` for one big room.
pub const BIG_ROOM: usize = 10;
/// Traps on a level.
pub const MAX_TRAP: usize = 10;
/// Percent chance that a door or a stretch of passage is hidden.
pub const HIDE_PERCENT: i64 = 12;
/// Depth of the amulet of Yendor.
pub const AMULET_LEVEL: usize = 26;
/// Highest experience level.
pub const MAX_EXP_LEVEL: usize = 21;
/// Highest number of experience points.
pub const MAX_EXP: usize = 10000000;
/// Highest enchantment of a piece of armor.
pub const MAX_ARMOR: isize = 99;

} // verus!
