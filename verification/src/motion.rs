//! Moving the rogue: directions, where it may step, and hunger.
use vstd::prelude::*;

use crate::components::hunger::{
    HungerLevel, FAINT_MOVES_LEFT, HUNGRY_MOVES_LEFT, STARVE_MOVES_LEFT, WEAK_MOVES_LEFT,
};
use crate::constants::{DCOLS, DROWS, MIN_ROW};
use crate::level::cells::{spec_cell_is_hidden, spec_nothing_cell, DungeonCell};
use crate::level::materials::{spec_material_is_stairs, spec_material_is_trap};
use crate::level::{in_dungeon, Level};
use crate::random::{get_rand, rand_percent};
use crate::trap::{is_off_screen, spec_is_off_screen};

verus! {

/// The key that cancels a prompt.
pub const CANCEL_CHAR: char = '\u{1b}';

/// How a step of the rogue ended.
#[derive(Debug, Copy, Clone, Eq, PartialEq, Structural)]
pub enum MoveResult {
    Moved,
    MoveFailed,
    StoppedOnSomething,
}

/// A step of the rogue as it is started and carried on.
#[derive(Debug, Copy, Clone, Eq, PartialEq, Structural)]
pub enum MoveEvent {
    Start { direction: MoveDirection, pickup: bool },
    Continue { row: i64, col: i64, rogue_row: i64, rogue_col: i64 },
}

/// What a step of the rogue leads to.
#[derive(Debug, Copy, Clone, Eq, PartialEq, Structural)]
pub enum MoveEffect {
    Fail { consume_time: bool },
    Teleport,
    Fight { row: i64, col: i64 },
    PrepToDoor { row: i64, col: i64, rogue_row: i64, rogue_col: i64 },
    PrepDoorToTunnel { row: i64, col: i64, rogue_row: i64, rogue_col: i64 },
    PrepTunnelToTunnel { row: i64, col: i64, rogue_row: i64, rogue_col: i64 },
    PrepWithinRoom { row: i64, col: i64, rogue_row: i64, rogue_col: i64 },
    Done { row: i64, col: i64, rogue_row: i64, rogue_col: i64 },
}

/// How a turn of hunger ended.
#[derive(Debug, Copy, Clone, Eq, PartialEq, Structural)]
pub enum HungerCheckResult {
    StillWalking,
    DidFaint,
    DidStarve,
}

/// When a run of steps stops.
#[derive(Debug, Copy, Clone, Eq, PartialEq, Structural)]
pub enum MoveUntil {
    Obstacle,
    NearSomething,
}

/// One of the eight directions of a step.
#[derive(Debug, Copy, Clone, Eq, PartialEq, Structural)]
pub enum MoveDirection {
    Left,
    Right,
    Up,
    Down,
    DownLeft,
    DownRight,
    UpLeft,
    UpRight,
}

/// The step in rows and columns of a direction.
pub open spec fn spec_offsets(d: MoveDirection) -> (i64, i64) {
    match d {
        MoveDirection::Left => (0i64, -1i64),
        MoveDirection::Right => (0i64, 1i64),
        MoveDirection::Up => (-1i64, 0i64),
        MoveDirection::Down => (1i64, 0i64),
        MoveDirection::DownLeft => (1i64, -1i64),
        MoveDirection::DownRight => (1i64, 1i64),
        MoveDirection::UpLeft => (-1i64, -1i64),
        MoveDirection::UpRight => (-1i64, 1i64),
    }
}

/// The lower-case letter that a key stands for once shift and control are
/// taken off: the low five bits of its byte, put among the lower-case letters.
pub open spec fn spec_key_letter(value: char) -> u32 {
    (((value as u32) % 256) % 32 + 96) as u32
}

/// The direction of a key letter.
pub open spec fn spec_direction_of_letter(letter: u32) -> Option<MoveDirection> {
    if letter == 'h' as u32 {
        Some(MoveDirection::Left)
    } else if letter == 'j' as u32 {
        Some(MoveDirection::Down)
    } else if letter == 'k' as u32 {
        Some(MoveDirection::Up)
    } else if letter == 'l' as u32 {
        Some(MoveDirection::Right)
    } else if letter == 'y' as u32 {
        Some(MoveDirection::UpLeft)
    } else if letter == 'u' as u32 {
        Some(MoveDirection::UpRight)
    } else if letter == 'n' as u32 {
        Some(MoveDirection::DownRight)
    } else if letter == 'b' as u32 {
        Some(MoveDirection::DownLeft)
    } else {
        None
    }
}

impl MoveDirection {
    /// The direction of a key: `h j k l y u n b`, with shift or control.
    pub fn from_char(value: char) -> (r: Self)
        requires
            spec_direction_of_letter(spec_key_letter(value)) is Some,
        ensures
            Some(r) == spec_direction_of_letter(spec_key_letter(value)),
    {
        let code = value as u32;
        let lowercase = (code % 256) % 32 + 96;
        if lowercase == 'h' as u32 {
            MoveDirection::Left
        } else if lowercase == 'j' as u32 {
            MoveDirection::Down
        } else if lowercase == 'k' as u32 {
            MoveDirection::Up
        } else if lowercase == 'l' as u32 {
            MoveDirection::Right
        } else if lowercase == 'y' as u32 {
            MoveDirection::UpLeft
        } else if lowercase == 'u' as u32 {
            MoveDirection::UpRight
        } else if lowercase == 'n' as u32 {
            MoveDirection::DownRight
        } else {
            MoveDirection::DownLeft
        }
    }

    /// The spot one step away, held inside the part of the screen that shows
    /// the dungeon.
    pub fn apply_confined(&self, row: i64, col: i64) -> (r: (usize, usize))
        requires
            i64::MIN < row < i64::MAX,
            i64::MIN < col < i64::MAX,
        ensures
            ({
                let (free_row, free_col) = (row + spec_offsets(*self).0, col + spec_offsets(*self).1);
                let cr = if free_row < MIN_ROW { MIN_ROW as int } else if free_row > DROWS - 2 { DROWS - 2 } else { free_row };
                let cc = if free_col < 0 { 0 } else if free_col > DCOLS - 1 { DCOLS - 1 } else { free_col };
                r.0 == cr && r.1 == cc
            }),
    {
        let (free_row, free_col) = self.apply(row, col);
        let r1 = if free_row > MIN_ROW { free_row } else { MIN_ROW };
        let confined_row = if r1 < DROWS as i64 - 2 { r1 } else { DROWS as i64 - 2 };
        let c1 = if free_col > 0 { free_col } else { 0 };
        let confined_col = if c1 < DCOLS as i64 - 1 { c1 } else { DCOLS as i64 - 1 };
        (confined_row as usize, confined_col as usize)
    }

    /// The spot one step away.
    pub fn apply(&self, row: i64, col: i64) -> (r: (i64, i64))
        requires
            i64::MIN < row < i64::MAX,
            i64::MIN < col < i64::MAX,
        ensures
            r.0 == row + spec_offsets(*self).0,
            r.1 == col + spec_offsets(*self).1,
    {
        let (drow, dcol) = self.to_offsets();
        (row + drow, col + dcol)
    }

    /// The step in rows and columns.
    pub fn to_offsets(&self) -> (r: (i64, i64))
        ensures
            r == spec_offsets(*self),
    {
        match self {
            MoveDirection::Left => (0, -1),
            MoveDirection::Right => (0, 1),
            MoveDirection::Up => (-1, 0),
            MoveDirection::Down => (1, 0),
            MoveDirection::DownLeft => (1, -1),
            MoveDirection::DownRight => (1, 1),
            MoveDirection::UpLeft => (-1, -1),
            MoveDirection::UpRight => (-1, 1),
        }
    }
}

/// Whether a key is a direction letter or the cancel key.
pub open spec fn spec_is_direction(c: char) -> bool {
    c == 'h' || c == 'j' || c == 'k' || c == 'l' || c == 'b' || c == 'y' || c == 'u' || c == 'n'
        || c == CANCEL_CHAR
}

/// Whether a key is a direction letter or the cancel key.
pub fn is_direction(c: char) -> (r: bool)
    ensures
        r == spec_is_direction(c),
{
    c == 'h' || c == 'j' || c == 'k' || c == 'l' || c == 'b' || c == 'y' || c == 'u' || c == 'n'
        || c == CANCEL_CHAR
}

/// Whether the rogue can stand at `row`, `col`: on the screen, and a found
/// floor, passage, door, stairs or trap; a hidden feature passes only where it
/// is a trap.
pub open spec fn spec_is_passable(level: &Level, row: i64, col: i64) -> bool {
    if spec_is_off_screen(row, col) {
        false
    } else {
        let cell = level.cell_at(row as int, col as int);
        if spec_cell_is_hidden(cell) {
            spec_material_is_trap(cell.material)
        } else {
            cell.material is Floor || cell.material is Tunnel || cell.material is Door
                || spec_material_is_stairs(cell.material) || spec_material_is_trap(cell.material)
        }
    }
}

/// Whether the rogue can stand at `row`, `col`.
pub fn is_passable(row: i64, col: i64, level: &Level) -> (r: bool)
    requires
        level.wf(),
    ensures
        r == spec_is_passable(level, row, col),
{
    if is_off_screen(row, col) {
        false
    } else {
        let cell = *level.cell(crate::spot::DungeonSpot { row, col });
        if cell.is_any_hidden() {
            cell.is_any_trap()
        } else {
            cell.is_any_floor() || cell.is_any_tunnel() || cell.is_any_door() || cell.is_stairs()
                || cell.is_any_trap()
        }
    }
}

/// Whether one step leads from `row1`, `col1` to `row2`, `col2`: the target
/// is passable, and a diagonal step neither leaves nor enters a door nor cuts
/// a corner of solid rock.
pub open spec fn spec_can_move(level: &Level, row1: i64, col1: i64, row2: i64, col2: i64) -> bool {
    spec_is_passable(level, row2, col2) && (row1 != row2 && col1 != col2 ==> {
        &&& !(level.cell_at(row1 as int, col1 as int).material is Door)
        &&& !(level.cell_at(row2 as int, col2 as int).material is Door)
        &&& level.cell_at(row1 as int, col2 as int) != spec_nothing_cell()
        &&& level.cell_at(row2 as int, col1 as int) != spec_nothing_cell()
    })
}

/// Whether one step leads from `row1`, `col1` to `row2`, `col2`.
pub fn can_move(row1: i64, col1: i64, row2: i64, col2: i64, level: &Level) -> (r: bool)
    requires
        level.wf(),
        in_dungeon(row1 as int, col1 as int),
        in_dungeon(row1 as int, col2 as int) || !(row1 != row2 && col1 != col2),
        in_dungeon(row2 as int, col1 as int) || !(row1 != row2 && col1 != col2),
    ensures
        r == spec_can_move(level, row1, col1, row2, col2),
{
    if !is_passable(row2, col2, level) {
        false
    } else {
        if row1 != row2 && col1 != col2 {
            if level.cell(crate::spot::DungeonSpot { row: row1, col: col1 }).is_any_door()
                || level.cell(crate::spot::DungeonSpot { row: row2, col: col2 }).is_any_door() {
                return false;
            }
            if level.cell(crate::spot::DungeonSpot { row: row1, col: col2 }).is_nothing()
                || level.cell(crate::spot::DungeonSpot { row: row2, col: col1 }).is_nothing() {
                return false;
            }
        }
        true
    }
}

/// Whether the neighbour at offset `i`, `j` of the rogue at `rr`, `rc` is one
/// that `next_to_something` looks at: inside the window around the rogue, not
/// the rogue's own spot nor the spot `drow`, `dcol` it came from, and not
/// hiding anything.
pub open spec fn spec_considered(level: &Level, drow: i64, dcol: i64, rr: i64, rc: i64, i: int, j: int) -> bool {
    let i_start: int = if rr > MIN_ROW { -1 } else { 0 };
    let i_end: int = if rr < DROWS - 2 { 1 } else { 0 };
    let j_start: int = if rc > 0 { -1 } else { 0 };
    let j_end: int = if rc < DCOLS - 1 { 1 } else { 0 };
    &&& i_start <= i <= i_end
    &&& j_start <= j <= j_end
    &&& !(i == 0 && j == 0)
    &&& !(rr + i == drow && rc + j == dcol)
    &&& !spec_cell_is_hidden(level.cell_at(rr + i, rc + j))
}

/// Whether a neighbour holds a monster, an object, stairs or a trap.
pub open spec fn spec_notable(level: &Level, row: int, col: int) -> bool {
    let s = level.cell_at(row, col);
    s.monster || !(s.object is Nothing) || spec_material_is_stairs(s.material)
        || spec_material_is_trap(s.material)
}

/// Whether a notable neighbour lies across the rogue's path: in the row or
/// column it came from, but not in its own row or column.
pub open spec fn spec_beside_path(drow: i64, dcol: i64, rr: i64, rc: i64, row: int, col: int) -> bool {
    (row == drow || col == dcol) && !(row == rr || col == rc)
}

/// Whether the neighbour at offset `i`, `j` stops a run: a notable neighbour
/// that does not lie across the path, or a door straight beside the rogue.
pub open spec fn spec_stops(level: &Level, drow: i64, dcol: i64, rr: i64, rc: i64, i: int, j: int) -> bool {
    &&& spec_considered(level, drow, dcol, rr, rc, i, j)
    &&& if spec_notable(level, rr + i, rc + j) {
        !spec_beside_path(drow, dcol, rr, rc, rr + i, rc + j)
    } else {
        level.cell_at(rr + i, rc + j).material is Door && (i == 0 || j == 0)
    }
}

/// Whether the neighbour at offset `i`, `j` is a passage straight beside the
/// rogue with nothing notable in it.
pub open spec fn spec_side_passage(level: &Level, drow: i64, dcol: i64, rr: i64, rc: i64, i: int, j: int) -> bool {
    &&& spec_considered(level, drow, dcol, rr, rc, i, j)
    &&& !spec_notable(level, rr + i, rc + j)
    &&& (i - j == 1 || i - j == -1)
    &&& level.cell_at(rr + i, rc + j).material is Tunnel
}

/// Whether a run of the rogue, now at `rr`, `rc` after coming from `drow`,
/// `dcol`, stops here: always when confused, never when blind, and otherwise
/// when a neighbour stops it or two side passages branch off.
pub open spec fn spec_next_to_something(
    level: &Level,
    drow: i64,
    dcol: i64,
    rr: i64,
    rc: i64,
    confused: bool,
    blind: bool,
) -> bool {
    confused || (!blind && ((exists|i: int, j: int| spec_stops(level, drow, dcol, rr, rc, i, j))
        || (exists|i1: int, j1: int, i2: int, j2: int|
        !(i1 == i2 && j1 == j2) && spec_side_passage(level, drow, dcol, rr, rc, i1, j1)
            && spec_side_passage(level, drow, dcol, rr, rc, i2, j2))))
}

/// Whether a run of the rogue, now at `rogue_row`, `rogue_col` after coming
/// from `drow`, `dcol`, should stop next to something.
pub fn next_to_something(
    drow: i64,
    dcol: i64,
    rogue_row: i64,
    rogue_col: i64,
    confused: bool,
    blind: bool,
    level: &Level,
) -> (r: bool)
    requires
        level.wf(),
        in_dungeon(rogue_row as int, rogue_col as int),
    ensures
        r == spec_next_to_something(level, drow, dcol, rogue_row, rogue_col, confused, blind),
{
    if confused {
        return true;
    }
    if blind {
        return false;
    }
    let rr = rogue_row;
    let rc = rogue_col;
    let ghost lvl = level;
    let i_end: i64 = if rr < DROWS as i64 - 2 { 1 } else { 0 };
    let j_end: i64 = if rc < DCOLS as i64 - 1 { 1 } else { 0 };
    let i_start: i64 = if rr > MIN_ROW { -1 } else { 0 };
    let j_start: i64 = if rc > 0 { -1 } else { 0 };
    let mut pass_count: usize = 0;
    let ghost mut first_pass: (int, int) = (0, 0);
    let mut i = i_start;
    while i <= i_end
        invariant
            level.wf(),
            !confused,
            !blind,
            rr == rogue_row,
            rc == rogue_col,
            in_dungeon(rr as int, rc as int),
            i_start == (if rr > MIN_ROW { -1int } else { 0 }),
            i_end == (if rr < DROWS - 2 { 1int } else { 0 }),
            j_start == (if rc > 0 { -1int } else { 0 }),
            j_end == (if rc < DCOLS - 1 { 1int } else { 0 }),
            i_start <= i <= i_end + 1,
            pass_count <= 1,
            forall|a: int, b: int| a < i ==> !#[trigger] spec_stops(level, drow, dcol, rr, rc, a, b),
            pass_count == 0 ==> forall|a: int, b: int| a < i ==> !#[trigger] spec_side_passage(level, drow, dcol, rr, rc, a, b),
            pass_count == 1 ==> spec_side_passage(level, drow, dcol, rr, rc, first_pass.0, first_pass.1),
            pass_count == 1 ==> first_pass.0 < i,
            pass_count == 1 ==> forall|a: int, b: int| a < i && !(a == first_pass.0 && b == first_pass.1) ==> !#[trigger] spec_side_passage(level, drow, dcol, rr, rc, a, b),
        decreases i_end + 1 - i,
    {
        let mut j = j_start;
        while j <= j_end
            invariant
                level.wf(),
                !confused,
                !blind,
                rr == rogue_row,
                rc == rogue_col,
                in_dungeon(rr as int, rc as int),
                i_start == (if rr > MIN_ROW { -1int } else { 0 }),
                i_end == (if rr < DROWS - 2 { 1int } else { 0 }),
                j_start == (if rc > 0 { -1int } else { 0 }),
                j_end == (if rc < DCOLS - 1 { 1int } else { 0 }),
                i_start <= i <= i_end,
                j_start <= j <= j_end + 1,
                pass_count <= 1,
                forall|a: int, b: int| (a < i || (a == i && b < j)) ==> !#[trigger] spec_stops(level, drow, dcol, rr, rc, a, b),
                pass_count == 0 ==> forall|a: int, b: int| (a < i || (a == i && b < j)) ==> !#[trigger] spec_side_passage(level, drow, dcol, rr, rc, a, b),
                pass_count == 1 ==> spec_side_passage(level, drow, dcol, rr, rc, first_pass.0, first_pass.1),
                pass_count == 1 ==> (first_pass.0 < i || (first_pass.0 == i && first_pass.1 < j)),
                pass_count == 1 ==> forall|a: int, b: int| (a < i || (a == i && b < j)) && !(a == first_pass.0 && b == first_pass.1) ==> !#[trigger] spec_side_passage(level, drow, dcol, rr, rc, a, b),
            decreases j_end + 1 - j,
        {
            if (i == 0) && (j == 0) {
                j += 1;
                continue;
            }
            if ((rr + i) == drow) && ((rc + j) == dcol) {
                j += 1;
                continue;
            }
            let row = rr + i;
            let col = rc + j;
            let s = *level.cell(crate::spot::DungeonSpot { row, col });
            if s.is_any_hidden() {
                j += 1;
                continue;
            }
            if s.has_monster() || s.has_object() || s.is_stairs() {
                if ((row == drow) || (col == dcol)) && (!((row == rr) || (col == rc))) {
                    j += 1;
                    continue;
                }
                assert(spec_stops(level, drow, dcol, rr, rc, i as int, j as int));
                return true;
            }
            if s.is_any_trap() {
                if !s.is_any_hidden() {
                    if ((row == drow) || (col == dcol)) && (!((row == rr) || (col == rc))) {
                        j += 1;
                        continue;
                    }
                    assert(spec_stops(level, drow, dcol, rr, rc, i as int, j as int));
                    return true;
                }
            }
            if (((i - j) == 1) || ((i - j) == -1)) && s.is_any_tunnel() {
                pass_count += 1;
                if pass_count > 1 {
                    assert(spec_side_passage(level, drow, dcol, rr, rc, i as int, j as int));
                    assert(!(first_pass.0 == i && first_pass.1 == j));
                    return true;
                }
                proof {
                    first_pass = (i as int, j as int);
                }
            }
            if s.is_any_door() && ((i == 0) || (j == 0)) {
                assert(spec_stops(level, drow, dcol, rr, rc, i as int, j as int));
                return true;
            }
            j += 1;
        }
        i += 1;
    }
    proof {
        assert forall|a: int, b: int| !spec_stops(level, drow, dcol, rr, rc, a, b) by {
            if a >= i {
                assert(!spec_considered(level, drow, dcol, rr, rc, a, b));
            }
        }
        assert forall|i1: int, j1: int, i2: int, j2: int|
            !(!(i1 == i2 && j1 == j2) && spec_side_passage(level, drow, dcol, rr, rc, i1, j1)
                && spec_side_passage(level, drow, dcol, rr, rc, i2, j2)) by {
            if i1 >= i {
                assert(!spec_considered(level, drow, dcol, rr, rc, i1, j1));
            }
            if i2 >= i {
                assert(!spec_considered(level, drow, dcol, rr, rc, i2, j2));
            }
        }
    }
    false
}

/// The hunger reached when exactly `moves_left` moves of food are left, if a
/// threshold lies there; any count below starving starves.
pub open spec fn spec_hunger_transition(moves_left: isize) -> Option<HungerLevel> {
    if moves_left == HUNGRY_MOVES_LEFT {
        Some(HungerLevel::Hungry)
    } else if moves_left == WEAK_MOVES_LEFT {
        Some(HungerLevel::Weak)
    } else if moves_left == FAINT_MOVES_LEFT {
        Some(HungerLevel::Faint)
    } else if moves_left <= STARVE_MOVES_LEFT {
        Some(HungerLevel::Starved)
    } else {
        None
    }
}

/// The hunger reached when exactly `moves_left` moves of food are left.
fn get_hunger_transition(moves_left: isize) -> (r: Option<HungerLevel>)
    ensures
        r == spec_hunger_transition(moves_left),
{
    if moves_left == HUNGRY_MOVES_LEFT {
        Some(HungerLevel::Hungry)
    } else if moves_left == WEAK_MOVES_LEFT {
        Some(HungerLevel::Weak)
    } else if moves_left == FAINT_MOVES_LEFT {
        Some(HungerLevel::Faint)
    } else if moves_left == STARVE_MOVES_LEFT {
        Some(HungerLevel::Starved)
    } else if moves_left < STARVE_MOVES_LEFT {
        Some(HungerLevel::Starved)
    } else {
        None
    }
}

/// The hunger reached after burning `moves_burned` moves to arrive at
/// `moves_left`: none when nothing was burned, and when two were burned the
/// threshold passed on the way counts too.
pub fn get_hunger_transition_with_burn_count(moves_left: isize, moves_burned: isize) -> (r: Option<
    HungerLevel,
>)
    requires
        0 <= moves_burned <= 2,
        moves_left < isize::MAX,
    ensures
        r == (if moves_burned == 0 {
            None
        } else if moves_burned == 1 {
            spec_hunger_transition(moves_left)
        } else {
            match spec_hunger_transition(moves_left) {
                Some(h) => Some(h),
                None => spec_hunger_transition((moves_left + 1) as isize),
            }
        }),
{
    match moves_burned {
        0 => None,
        1 => get_hunger_transition(moves_left),
        _ => match get_hunger_transition(moves_left) {
            Some(h) => Some(h),
            None => get_hunger_transition(moves_left + 1),
        },
    }
}

/// The words the rogue reads when it comes to after fainting.
pub const YOU_CAN_MOVE_AGAIN: &'static str = "you can move again";

/// The rogue's hunger as a turn reads and changes it.
pub struct HungerState {
    /// Moves of food left.
    pub moves_left: isize,
    /// How hungry the rogue is.
    pub hunger: HungerLevel,
    /// The entries written to the message diary, oldest first.
    pub messages: Vec<String>,
    /// Whether the status line must be redrawn.
    pub stats_changed: bool,
}

/// The texts of a list of messages.
pub open spec fn spec_texts(messages: Seq<String>) -> Seq<Seq<char>> {
    messages.map_values(|m: String| m@)
}

/// The remainder of `m` by two as Rust's `%` gives it: with the sign of `m`.
pub open spec fn spec_rem2(m: int) -> int {
    if m >= 0 {
        m % 2
    } else {
        -((-m) % 2)
    }
}

/// The moves of food that a turn burns, by the calorie burn of the rings
/// worn (from -2 to 2) and the moves left before it: none, one every other
/// turn, one, one and a half, or two.
pub open spec fn spec_moves_to_burn(calorie_burn: isize, moves_left: isize) -> int {
    if calorie_burn == -2 {
        0
    } else if calorie_burn == -1 {
        spec_rem2(moves_left as int)
    } else if calorie_burn == 0 {
        1
    } else if calorie_burn == 1 {
        1 + spec_rem2(moves_left as int)
    } else {
        2
    }
}

/// The hunger reached after burning `burned` moves to arrive at `moves_left`.
pub open spec fn spec_burn_transition(moves_left: int, burned: int) -> Option<HungerLevel> {
    if burned == 1 {
        spec_hunger_transition(moves_left as isize)
    } else {
        match spec_hunger_transition(moves_left as isize) {
            Some(h) => Some(h),
            None => spec_hunger_transition((moves_left + 1) as isize),
        }
    }
}

/// The hunger after a turn that burned `burned` moves to arrive at
/// `moves_left`, from the hunger `before`.
pub open spec fn spec_hunger_after(before: HungerLevel, moves_left: int, burned: int) -> HungerLevel {
    match spec_burn_transition(moves_left, burned) {
        Some(h) => h,
        None => before,
    }
}

/// What the diary gains from a change of hunger.
pub open spec fn spec_transition_texts(moves_left: int, burned: int) -> Seq<Seq<char>> {
    match spec_burn_transition(moves_left, burned) {
        Some(HungerLevel::Normal) => seq!["normal"@],
        Some(HungerLevel::Hungry) => seq!["hungry"@],
        Some(HungerLevel::Weak) => seq!["weak"@],
        Some(HungerLevel::Faint) => seq!["faint"@],
        Some(HungerLevel::Starved) => seq!["starved"@],
        None => Seq::empty(),
    }
}

/// The remainder of `m` by two, with the sign of `m`.
fn rem2(m: isize) -> (r: isize)
    requires
        m > isize::MIN,
    ensures
        r == spec_rem2(m as int),
{
    if m >= 0 {
        m % 2
    } else {
        0 - ((0 - m) % 2)
    }
}

/// What one turn of hunger from `before` with the rings' calorie burn
/// leaves in `after`, with result `r` (see `check_hunger`).
pub open spec fn spec_hunger_turn(before: &HungerState, after: &HungerState, calorie_burn: isize, r: (HungerCheckResult, i64)) -> bool {
    let burn = spec_moves_to_burn(calorie_burn, before.moves_left);
    let ml = before.moves_left - burn;
    let h = spec_hunger_after(before.hunger, ml, burn);
    let base = spec_texts(before.messages@) + spec_transition_texts(ml, burn);
    if burn == 0 {
        &&& r == (HungerCheckResult::StillWalking, 0i64)
        &&& after.moves_left == before.moves_left
        &&& after.hunger == before.hunger
        &&& spec_texts(after.messages@) == spec_texts(before.messages@)
        &&& after.stats_changed == before.stats_changed
    } else {
        &&& after.hunger == h
        &&& after.stats_changed == (before.stats_changed
            || spec_burn_transition(ml, burn) is Some)
        &&& (h == HungerLevel::Starved ==> r == (HungerCheckResult::DidStarve, 0i64)
            && after.moves_left == ml && spec_texts(after.messages@) == base)
        &&& (h == HungerLevel::Faint ==> {
            ||| r.0 == HungerCheckResult::DidFaint && 0 < r.1 <= FAINT_MOVES_LEFT - ml
                && (after.moves_left == ml || after.moves_left == ml + 1)
                && spec_texts(after.messages@) == base.push("you faint"@)
            ||| r == (HungerCheckResult::StillWalking, 0i64)
                && after.moves_left == ml
                && spec_texts(after.messages@) == base
        })
        &&& (h != HungerLevel::Starved && h != HungerLevel::Faint ==> r == (
            HungerCheckResult::StillWalking,
            0i64,
        ) && after.moves_left == ml && spec_texts(after.messages@) == base)
    }
}

/// One turn of hunger.  The rings' calorie burn decides how many moves of
/// food the turn burns; when the moves left cross a threshold the hunger
/// changes, its word is written to the diary and the status line is marked.
/// A starved rogue is reported as such.  A fainting rogue may fall: a draw
/// from 0 to the moves it is below the faint threshold gives the turns it
/// lies still, and if that is more than none the diary reads "you faint",
/// there is a chance of 40 in 100 that a move of food comes back, and the
/// turns are returned for the monsters to take; the caller writes
/// `YOU_CAN_MOVE_AGAIN` once they have.
pub fn check_hunger(state: &mut HungerState, calorie_burn: isize) -> (r: (HungerCheckResult, i64))
    requires
        -2 <= calorie_burn <= 2,
        spec_moves_to_burn(calorie_burn, old(state).moves_left) >= 0,
        isize::MIN + 22 <= old(state).moves_left <= isize::MAX - 2,
    ensures
        spec_hunger_turn(old(state), final(state), calorie_burn, r),
{
    let moves_to_burn: isize = if calorie_burn == -2 {
        0
    } else if calorie_burn == -1 {
        rem2(state.moves_left)
    } else if calorie_burn == 0 {
        1
    } else if calorie_burn == 1 {
        1 + rem2(state.moves_left)
    } else {
        2
    };
    if moves_to_burn == 0 {
        return (HungerCheckResult::StillWalking, 0);
    }
    let ghost old_texts = spec_texts(state.messages@);
    state.moves_left = state.moves_left - moves_to_burn;
    let ml = state.moves_left;
    if let Some(next_hunger) = get_hunger_transition_with_burn_count(ml, moves_to_burn) {
        state.hunger = next_hunger;
        let word = next_hunger.as_str().to_string();
        state.messages.push(word);
        state.stats_changed = true;
        proof {
            assert(spec_texts(state.messages@) =~= old_texts + spec_transition_texts(ml as int, moves_to_burn as int));
        }
    } else {
        proof {
            assert(spec_transition_texts(ml as int, moves_to_burn as int) =~= Seq::<Seq<char>>::empty());
            assert(spec_texts(state.messages@) =~= old_texts + spec_transition_texts(ml as int, moves_to_burn as int));
        }
    }
    if state.hunger == HungerLevel::Starved {
        return (HungerCheckResult::DidStarve, 0);
    }
    if state.hunger == HungerLevel::Faint {
        let below: i64 = (FAINT_MOVES_LEFT - ml) as i64;
        let n = get_rand(0, below);
        if n > 0 {
            if rand_percent(40) {
                state.moves_left = state.moves_left + 1;
            }
            let ghost before = spec_texts(state.messages@);
            state.messages.push("you faint".to_string());
            proof {
                assert(spec_texts(state.messages@) =~= before.push("you faint"@));
            }
            return (HungerCheckResult::DidFaint, n);
        }
    }
    (HungerCheckResult::StillWalking, 0)
}

/// The chance in a hundred that a ring of teleportation whisks the rogue away
/// as it starts a step.
pub const R_TELE_PERCENT: i64 = 8;

/// What a step of the rogue reads of the game and changes in it.
pub struct MoveContext {
    /// The level the rogue walks.
    pub level: Level,
    /// The rogue's row.
    pub rogue_row: i64,
    /// The rogue's column.
    pub rogue_col: i64,
    /// Whether the rogue is confused.
    pub confused: bool,
    /// Whether a monster holds the rogue.
    pub being_held: bool,
    /// Turns the rogue is still caught in a bear trap.
    pub bear_trap: usize,
    /// Whether the rogue wears a ring of teleportation.
    pub has_teleport: bool,
    /// Whether the rogue's run of moves was interrupted.
    pub interrupted: bool,
    /// The entries written to the message diary, oldest first.
    pub messages: Vec<String>,
}

impl MoveContext {
    /// The level is well formed and the rogue stands in the dungeon.
    pub open spec fn wf(&self) -> bool {
        self.level.wf() && in_dungeon(self.rogue_row as int, self.rogue_col as int)
    }
}

/// Whether the rogue can step to `row`, `col`.
pub open spec fn spec_rogue_can_move(ctx: &MoveContext, row: i64, col: i64) -> bool {
    spec_can_move(&ctx.level, ctx.rogue_row, ctx.rogue_col, row, col)
}

/// What starting a step in direction `d` leads to; `teleports` tells whether
/// the ring of teleportation fired.
pub open spec fn spec_start_effect(ctx: &MoveContext, d: MoveDirection, teleports: bool) -> MoveEffect {
    let rogue_row = ctx.rogue_row;
    let rogue_col = ctx.rogue_col;
    let row = (rogue_row + spec_offsets(d).0) as i64;
    let col = (rogue_col + spec_offsets(d).1) as i64;
    let target = ctx.level.cell_at(row as int, col as int);
    if !spec_rogue_can_move(ctx, row, col) {
        MoveEffect::Fail { consume_time: false }
    } else if (ctx.being_held || ctx.bear_trap > 0) && !target.monster {
        MoveEffect::Fail { consume_time: !ctx.being_held }
    } else if teleports {
        MoveEffect::Teleport
    } else if target.monster {
        MoveEffect::Fight { row, col }
    } else if target.material is Door {
        MoveEffect::PrepToDoor { row, col, rogue_row, rogue_col }
    } else if target.material is Tunnel {
        if ctx.level.cell_at(rogue_row as int, rogue_col as int).material is Door {
            MoveEffect::PrepDoorToTunnel { row, col, rogue_row, rogue_col }
        } else {
            MoveEffect::PrepTunnelToTunnel { row, col, rogue_row, rogue_col }
        }
    } else {
        MoveEffect::PrepWithinRoom { row, col, rogue_row, rogue_col }
    }
}

/// What the diary gains when starting a step in direction `d` fails because
/// the rogue is held or trapped.
pub open spec fn spec_start_texts(ctx: &MoveContext, d: MoveDirection) -> Seq<Seq<char>> {
    let row = (ctx.rogue_row + spec_offsets(d).0) as i64;
    let col = (ctx.rogue_col + spec_offsets(d).1) as i64;
    if spec_rogue_can_move(ctx, row, col) && (ctx.being_held || ctx.bear_trap > 0)
        && !ctx.level.cell_at(row as int, col as int).monster {
        if ctx.being_held {
            seq!["you are being held"@]
        } else {
            seq!["you are still stuck in the bear trap"@]
        }
    } else {
        Seq::empty()
    }
}

impl MoveDirection {
    /// One of the eight directions, drawn at random.
    pub fn random() -> (r: Self) {
        let n = get_rand(0, 7);
        if n == 0 {
            MoveDirection::Left
        } else if n == 1 {
            MoveDirection::Right
        } else if n == 2 {
            MoveDirection::Up
        } else if n == 3 {
            MoveDirection::Down
        } else if n == 4 {
            MoveDirection::DownLeft
        } else if n == 5 {
            MoveDirection::DownRight
        } else if n == 6 {
            MoveDirection::UpLeft
        } else {
            MoveDirection::UpRight
        }
    }
}

/// Whether the rogue can step to `row`, `col`, which lies at most one step
/// from it.
fn rogue_can_move(ctx: &MoveContext, row: i64, col: i64) -> (r: bool)
    requires
        ctx.wf(),
        ctx.rogue_row - 1 <= row <= ctx.rogue_row + 1,
        ctx.rogue_col - 1 <= col <= ctx.rogue_col + 1,
    ensures
        r == spec_rogue_can_move(ctx, row, col),
{
    if !(0 <= row && row < DROWS as i64 && 0 <= col && col < DCOLS as i64) {
        assert(spec_is_off_screen(row, col));
        false
    } else {
        can_move(ctx.rogue_row, ctx.rogue_col, row, col, &ctx.level)
    }
}

/// Starts a step of the rogue in direction `d`, with `teleports` telling
/// whether the ring of teleportation fired.  A held rogue is told so and its
/// run is interrupted; a trapped one is told so and loses the turn.
pub fn start_move(ctx: &mut MoveContext, d: MoveDirection, teleports: bool) -> (r: MoveEffect)
    requires
        old(ctx).wf(),
    ensures
        r == spec_start_effect(old(ctx), d, teleports),
        spec_texts(final(ctx).messages@) == spec_texts(old(ctx).messages@) + spec_start_texts(old(ctx), d),
        final(ctx).interrupted == (old(ctx).interrupted || r == MoveEffect::Fail { consume_time: false }
            && spec_start_texts(old(ctx), d).len() > 0),
        final(ctx).level == old(ctx).level,
        final(ctx).rogue_row == old(ctx).rogue_row,
        final(ctx).rogue_col == old(ctx).rogue_col,
        final(ctx).confused == old(ctx).confused,
        final(ctx).being_held == old(ctx).being_held,
        final(ctx).bear_trap == old(ctx).bear_trap,
        final(ctx).has_teleport == old(ctx).has_teleport,
{
    let ghost old_texts = spec_texts(ctx.messages@);
    let rogue_row = ctx.rogue_row;
    let rogue_col = ctx.rogue_col;
    let (row, col) = d.apply(rogue_row, rogue_col);
    if !rogue_can_move(ctx, row, col) {
        assert(spec_start_texts(old(ctx), d) =~= Seq::<Seq<char>>::empty());
        return MoveEffect::Fail { consume_time: false };
    }
    let target = *ctx.level.cell(crate::spot::DungeonSpot { row, col });
    let rogue_stuck = ctx.being_held || ctx.bear_trap > 0;
    if rogue_stuck && !target.has_monster() {
        if ctx.being_held {
            ctx.interrupted = true;
            ctx.messages.push("you are being held".to_string());
            assert(spec_texts(ctx.messages@) =~= old_texts + spec_start_texts(old(ctx), d));
            return MoveEffect::Fail { consume_time: false };
        } else {
            ctx.messages.push("you are still stuck in the bear trap".to_string());
            assert(spec_texts(ctx.messages@) =~= old_texts + spec_start_texts(old(ctx), d));
            return MoveEffect::Fail { consume_time: true };
        }
    }
    assert(spec_start_texts(old(ctx), d) =~= Seq::<Seq<char>>::empty());
    if teleports {
        return MoveEffect::Teleport;
    }
    if target.has_monster() {
        return MoveEffect::Fight { row, col };
    }
    if target.is_any_door() {
        MoveEffect::PrepToDoor { row, col, rogue_row, rogue_col }
    } else if target.is_any_tunnel() {
        if ctx.level.cell(crate::spot::DungeonSpot { row: rogue_row, col: rogue_col }).is_any_door() {
            MoveEffect::PrepDoorToTunnel { row, col, rogue_row, rogue_col }
        } else {
            MoveEffect::PrepTunnelToTunnel { row, col, rogue_row, rogue_col }
        }
    } else {
        MoveEffect::PrepWithinRoom { row, col, rogue_row, rogue_col }
    }
}

/// Takes one event of a step of the rogue.  A start picks the direction (a
/// random one when the rogue is confused), rolls the ring of teleportation
/// when one is worn, and goes on as `start_move` says; a continuation moves
/// the rogue to the spot it names.
pub fn dispatch_move_event(event: MoveEvent, ctx: &mut MoveContext) -> (r: MoveEffect)
    requires
        old(ctx).wf(),
    ensures
        match event {
            MoveEvent::Start { direction, pickup: _ } => exists|d: MoveDirection, teleports: bool|
                {
                    &&& (!old(ctx).confused ==> d == direction)
                    &&& (teleports ==> old(ctx).has_teleport)
                    &&& r == spec_start_effect(old(ctx), d, teleports)
                    &&& spec_texts(final(ctx).messages@) == spec_texts(old(ctx).messages@)
                        + spec_start_texts(old(ctx), d)
                    &&& final(ctx).interrupted == (old(ctx).interrupted || r == MoveEffect::Fail {
                        consume_time: false,
                    } && spec_start_texts(old(ctx), d).len() > 0)
                } && final(ctx).level == old(ctx).level && final(ctx).rogue_row == old(ctx).rogue_row
                && final(ctx).rogue_col == old(ctx).rogue_col,
            MoveEvent::Continue { row, col, rogue_row, rogue_col } => {
                &&& r == (MoveEffect::Done { row, col, rogue_row, rogue_col })
                &&& final(ctx).rogue_row == row
                &&& final(ctx).rogue_col == col
                &&& final(ctx).level == old(ctx).level
                &&& final(ctx).messages@ == old(ctx).messages@
                &&& final(ctx).interrupted == old(ctx).interrupted
            },
        },
{
    match event {
        MoveEvent::Start { direction, pickup: _ } => {
            let d = if ctx.confused {
                MoveDirection::random()
            } else {
                direction
            };
            let teleports = ctx.has_teleport && rand_percent(R_TELE_PERCENT);
            start_move(ctx, d, teleports)
        },
        MoveEvent::Continue { row, col, rogue_row, rogue_col } => {
            ctx.rogue_row = row;
            ctx.rogue_col = col;
            MoveEffect::Done { row, col, rogue_row, rogue_col }
        },
    }
}

/// Whether a run of steps goes on after a step: only after a step that
/// moved the rogue without interrupting it, and, in a run that stops near
/// something, only while nothing of note is next to the rogue.
pub fn run_goes_on(until: MoveUntil, result: MoveResult, interrupted: bool, near_something: bool) -> (r: bool)
    ensures
        r == (result == MoveResult::Moved && !interrupted && (until == MoveUntil::NearSomething ==> !near_something)),
{
    match until {
        MoveUntil::Obstacle => !interrupted && result == MoveResult::Moved,
        MoveUntil::NearSomething => {
            if result == MoveResult::MoveFailed || result == MoveResult::StoppedOnSomething || interrupted {
                false
            } else {
                !near_something
            }
        },
    }
}

/// How a step that moved the rogue ends, once the turn has passed: the
/// rogue stops when it fainted from hunger during the turn or is confused,
/// and has simply moved otherwise.
pub fn moved_unless_hungry_or_confused(fainted: bool, confused: bool) -> (r: MoveResult)
    ensures
        r == (if fainted || confused { MoveResult::StoppedOnSomething } else { MoveResult::Moved }),
{
    if fainted {
        MoveResult::StoppedOnSomething
    } else if confused {
        MoveResult::StoppedOnSomething
    } else {
        MoveResult::Moved
    }
}

/// What the game does next with a step of the rogue, once the step's
/// effect is known.
#[derive(Debug, Copy, Clone, Eq, PartialEq, Structural)]
pub enum MoveOutcome {
    /// The step failed; a turn passes where `turn_passes` is set.
    Failed { turn_passes: bool },
    /// A ring of teleportation whisks the rogue away.
    Teleported,
    /// The rogue fights the monster at `row`, `col`, and a turn passes.
    Fights { row: i64, col: i64 },
    /// The step goes on with `next`, once the rooms entered and left are
    /// seen to.
    GoesOn { next: MoveEvent },
    /// The rogue landed on an object and picks it up.
    PicksUp,
    /// The rogue landed on an object and floats above it.
    Hovers,
    /// The rogue landed on an object without picking it up: it is told what
    /// lies there, and a turn passes.
    MovedOnto,
    /// The rogue landed on a door, stairs or a trap, which springs where
    /// `springs_trap` is set; a turn passes.
    StopsAt { springs_trap: bool },
    /// The rogue landed on nothing of note, and a turn passes.
    Walks,
}

/// What the game does next with a step whose effect is `effect`, the rogue
/// standing on `cell` once the step is done.
pub open spec fn spec_finish_move(effect: MoveEffect, cell: DungeonCell, pickup: bool, levitating: bool) -> MoveOutcome {
    match effect {
        MoveEffect::Fail { consume_time } => MoveOutcome::Failed { turn_passes: consume_time },
        MoveEffect::Teleport => MoveOutcome::Teleported,
        MoveEffect::Fight { row, col } => MoveOutcome::Fights { row, col },
        MoveEffect::PrepToDoor { row, col, rogue_row, rogue_col } => MoveOutcome::GoesOn {
            next: MoveEvent::Continue { row, col, rogue_row, rogue_col },
        },
        MoveEffect::PrepDoorToTunnel { row, col, rogue_row, rogue_col } => MoveOutcome::GoesOn {
            next: MoveEvent::Continue { row, col, rogue_row, rogue_col },
        },
        MoveEffect::PrepTunnelToTunnel { row, col, rogue_row, rogue_col } => MoveOutcome::GoesOn {
            next: MoveEvent::Continue { row, col, rogue_row, rogue_col },
        },
        MoveEffect::PrepWithinRoom { row, col, rogue_row, rogue_col } => MoveOutcome::GoesOn {
            next: MoveEvent::Continue { row, col, rogue_row, rogue_col },
        },
        MoveEffect::Done { .. } => if !(cell.object is Nothing) {
            if !pickup {
                MoveOutcome::MovedOnto
            } else if levitating {
                MoveOutcome::Hovers
            } else {
                MoveOutcome::PicksUp
            }
        } else if cell.material is Door || spec_material_is_stairs(cell.material) || spec_material_is_trap(cell.material) {
            MoveOutcome::StopsAt { springs_trap: !levitating && spec_material_is_trap(cell.material) }
        } else {
            MoveOutcome::Walks
        },
    }
}

/// What the game does next with a step whose effect is `effect`.  A failed
/// step, a teleport and a fight end the step; a step into a door, out of a
/// door, along passage or within a room goes on to its spot.  Once done,
/// the rogue standing on `cell`: on an object it picks it up (floating
/// above it when `levitating`) where `pickup` is set, and is told what lies
/// there otherwise; on a door, stairs or a trap it stops, and a trap
/// springs unless it is `levitating`; elsewhere it simply walks.
pub fn finish_move(effect: MoveEffect, cell: DungeonCell, pickup: bool, levitating: bool) -> (r: MoveOutcome)
    ensures
        r == spec_finish_move(effect, cell, pickup, levitating),
{
    match effect {
        MoveEffect::Fail { consume_time } => MoveOutcome::Failed { turn_passes: consume_time },
        MoveEffect::Teleport => MoveOutcome::Teleported,
        MoveEffect::Fight { row, col } => MoveOutcome::Fights { row, col },
        MoveEffect::PrepToDoor { row, col, rogue_row, rogue_col } => MoveOutcome::GoesOn {
            next: MoveEvent::Continue { row, col, rogue_row, rogue_col },
        },
        MoveEffect::PrepDoorToTunnel { row, col, rogue_row, rogue_col } => MoveOutcome::GoesOn {
            next: MoveEvent::Continue { row, col, rogue_row, rogue_col },
        },
        MoveEffect::PrepTunnelToTunnel { row, col, rogue_row, rogue_col } => MoveOutcome::GoesOn {
            next: MoveEvent::Continue { row, col, rogue_row, rogue_col },
        },
        MoveEffect::PrepWithinRoom { row, col, rogue_row, rogue_col } => MoveOutcome::GoesOn {
            next: MoveEvent::Continue { row, col, rogue_row, rogue_col },
        },
        MoveEffect::Done { .. } => {
            if cell.has_object() {
                if !pickup {
                    MoveOutcome::MovedOnto
                } else if levitating {
                    MoveOutcome::Hovers
                } else {
                    MoveOutcome::PicksUp
                }
            } else if cell.is_any_door() || cell.is_stairs() || cell.is_any_trap() {
                MoveOutcome::StopsAt { springs_trap: !levitating && cell.is_any_trap() }
            } else {
                MoveOutcome::Walks
            }
        },
    }
}

/// Where the rogue is once a step with effect `effect` goes on, having been
/// in `cur_room`: stepping from passage onto a door takes it into the room
/// of that door; stepping off a door onto passage takes it into passage;
/// any other step leaves it where it was.
pub fn room_after_step(effect: MoveEffect, cur_room: crate::room::RoomMark, level: &Level) -> (r: crate::room::RoomMark)
    ensures
        r == (match effect {
            MoveEffect::PrepToDoor { row, col, .. } => if cur_room is Passage {
                crate::level::spec_room_mark(level.rooms@, row, col)
            } else {
                cur_room
            },
            MoveEffect::PrepDoorToTunnel { .. } => crate::room::RoomMark::Passage,
            _ => cur_room,
        }),
{
    match effect {
        MoveEffect::PrepToDoor { row, col, .. } => {
            if let crate::room::RoomMark::Passage = cur_room {
                level.room(row, col)
            } else {
                cur_room
            }
        },
        MoveEffect::PrepDoorToTunnel { .. } => crate::room::RoomMark::Passage,
        _ => cur_room,
    }
}

/// How a step ends once the game has done what `outcome` asks: `None`
/// while the step goes on.  A failed step and a fight fail; a teleport,
/// hovering, moving onto an object, stopping at a door, stairs or a trap,
/// and picking up an object that does not turn to dust stop the rogue on
/// something; a walk, or a pick-up whose object turned to dust, ends as
/// `moved_unless_hungry_or_confused` says with `fainted` telling whether
/// the rogue fainted from hunger during the turn.
pub fn move_result(outcome: MoveOutcome, turned_to_dust: bool, fainted: bool, confused: bool) -> (r: Option<MoveResult>)
    ensures
        r == (match outcome {
            MoveOutcome::GoesOn { .. } => None,
            MoveOutcome::Failed { .. } => Some(MoveResult::MoveFailed),
            MoveOutcome::Fights { .. } => Some(MoveResult::MoveFailed),
            MoveOutcome::Walks => Some(if fainted || confused { MoveResult::StoppedOnSomething } else { MoveResult::Moved }),
            MoveOutcome::PicksUp => Some(if turned_to_dust && !fainted && !confused {
                MoveResult::Moved
            } else {
                MoveResult::StoppedOnSomething
            }),
            _ => Some(MoveResult::StoppedOnSomething),
        }),
{
    match outcome {
        MoveOutcome::GoesOn { .. } => None,
        MoveOutcome::Failed { .. } => Some(MoveResult::MoveFailed),
        MoveOutcome::Fights { .. } => Some(MoveResult::MoveFailed),
        MoveOutcome::Walks => Some(moved_unless_hungry_or_confused(fainted, confused)),
        MoveOutcome::PicksUp => {
            if turned_to_dust {
                Some(moved_unless_hungry_or_confused(fainted, confused))
            } else {
                Some(MoveResult::StoppedOnSomething)
            }
        },
        MoveOutcome::Teleported => Some(MoveResult::StoppedOnSomething),
        MoveOutcome::Hovers => Some(MoveResult::StoppedOnSomething),
        MoveOutcome::MovedOnto => Some(MoveResult::StoppedOnSomething),
        MoveOutcome::StopsAt { .. } => Some(MoveResult::StoppedOnSomething),
    }
}

/// The monster turns between two wandering monsters.
pub const WANDERER_MOVES: usize = 120;

/// The hunger part of a turn: hunger is checked only once the rogue is
/// hungry or at the deepest level it has reached; otherwise the rogue walks
/// on.  Whether the rogue starved, or fainted and for how many turns, is
/// returned as `check_hunger` gives it.
pub fn reg_move_hunger(state: &mut HungerState, calorie_burn: isize, max_depth: bool) -> (r: (HungerCheckResult, i64))
    requires
        -2 <= calorie_burn <= 2,
        spec_moves_to_burn(calorie_burn, old(state).moves_left) >= 0,
        isize::MIN + 22 <= old(state).moves_left <= isize::MAX - 2,
    ensures
        !(old(state).moves_left <= HUNGRY_MOVES_LEFT || max_depth) ==> r == (HungerCheckResult::StillWalking, 0i64)
            && final(state).moves_left == old(state).moves_left && final(state).hunger == old(state).hunger
            && final(state).messages@ == old(state).messages@
            && final(state).stats_changed == old(state).stats_changed,
        (old(state).moves_left <= HUNGRY_MOVES_LEFT || max_depth) ==> spec_hunger_turn(old(state), final(state), calorie_burn, r),
{
    if state.moves_left <= HUNGRY_MOVES_LEFT || max_depth {
        check_hunger(state, calorie_burn)
    } else {
        (HungerCheckResult::StillWalking, 0)
    }
}

/// What the hunger part of a turn decides of the rest: whether the turn
/// goes on to the monsters and the passing conditions (not once the rogue
/// starved), and whether the turn stops the rogue, which starving or
/// fainting does.
pub fn reg_move_verdict(hunger: HungerCheckResult) -> (r: (bool, bool))
    ensures
        r.0 == !(hunger is DidStarve),
        r.1 == !(hunger is StillWalking),
{
    match hunger {
        HungerCheckResult::DidStarve => (false, true),
        HungerCheckResult::DidFaint => (true, true),
        HungerCheckResult::StillWalking => (true, false),
    }
}

/// How long each passing condition of the rogue still lasts, in turns.
#[derive(Debug, Copy, Clone, Eq, PartialEq, Structural)]
pub struct Timers {
    pub halluc: isize,
    pub blind: isize,
    pub confused: isize,
    pub bear_trap: usize,
    pub levitate: isize,
    pub haste_self: isize,
}

/// A condition's turns after one more turn: one fewer while it lasts.
pub open spec fn spec_tick(t: isize) -> isize {
    if t > 0 { (t - 1) as isize } else { t }
}

/// The rest of a turn, once the monsters have moved.  The count of monster
/// turns goes up, and at a hundred and twenty it starts over and a
/// wandering monster is due (the result).  Every condition that lasts loses
/// a turn, and so does a bear trap; when levitation ends the rogue floats
/// to the ground and is interrupted, and when haste ends it slows down.
pub fn reg_move_after_monsters(
    m_moves: &mut usize,
    timers: &mut Timers,
    interrupted: &mut bool,
    messages: &mut Vec<String>,
) -> (wanderer_due: bool)
    ensures
        wanderer_due == (*old(m_moves) + 1 >= WANDERER_MOVES),
        *final(m_moves) == (if wanderer_due { 0 } else { *old(m_moves) + 1 }),
        final(timers).halluc == spec_tick(old(timers).halluc),
        final(timers).blind == spec_tick(old(timers).blind),
        final(timers).confused == spec_tick(old(timers).confused),
        final(timers).levitate == spec_tick(old(timers).levitate),
        final(timers).haste_self == spec_tick(old(timers).haste_self),
        final(timers).bear_trap == (if old(timers).bear_trap > 0 { old(timers).bear_trap - 1 } else { 0 }),
        ({
            let landed = old(timers).levitate == 1;
            let slowed = old(timers).haste_self == 1;
            &&& *final(interrupted) == (*old(interrupted) || landed)
            &&& spec_texts(final(messages)@) == spec_texts(old(messages)@) + (if landed {
                seq!["you float gently to the ground"@]
            } else {
                Seq::empty()
            }) + (if slowed {
                seq!["you feel yourself slowing down"@]
            } else {
                Seq::empty()
            })
        }),
{
    let ghost before = spec_texts(messages@);
    let next_m_move = if *m_moves < WANDERER_MOVES { *m_moves + 1 } else { WANDERER_MOVES };
    let due = next_m_move >= WANDERER_MOVES;
    if due {
        *m_moves = 0;
    } else {
        *m_moves = next_m_move;
    }
    if timers.halluc > 0 {
        timers.halluc = timers.halluc - 1;
    }
    if timers.blind > 0 {
        timers.blind = timers.blind - 1;
    }
    if timers.confused > 0 {
        timers.confused = timers.confused - 1;
    }
    if timers.bear_trap > 0 {
        timers.bear_trap = timers.bear_trap - 1;
    }
    let ghost mid = spec_texts(messages@);
    if timers.levitate > 0 {
        timers.levitate = timers.levitate - 1;
        if timers.levitate <= 0 {
            *interrupted = true;
            messages.push("you float gently to the ground".to_string());
            assert(spec_texts(messages@) =~= mid.push("you float gently to the ground"@));
        }
    }
    let ghost after_landing = spec_texts(messages@);
    if timers.haste_self > 0 {
        timers.haste_self = timers.haste_self - 1;
        if timers.haste_self <= 0 {
            messages.push("you feel yourself slowing down".to_string());
            assert(spec_texts(messages@) =~= after_landing.push("you feel yourself slowing down"@));
        }
    }
    proof {
        let landed = old(timers).levitate == 1;
        let slowed = old(timers).haste_self == 1;
        assert(spec_texts(messages@) =~= before + (if landed {
            seq!["you float gently to the ground"@]
        } else {
            Seq::empty()
        }) + (if slowed {
            seq!["you feel yourself slowing down"@]
        } else {
            Seq::empty()
        }));
    }
    due
}

} // verus!
