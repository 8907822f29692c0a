//! The dungeon of one level: its cells, rooms and traps, and how a level is
//! dug out of rock.
use vstd::prelude::*;

use crate::constants::{DCOLS, DROWS, MAX_EXP, MAX_EXP_LEVEL, MAX_ROOM, MAX_TRAP};
use crate::level::cells::{spec_nothing_cell, DungeonCell};
use crate::level::dungeon::DungeonRow;
use crate::level::materials::{spec_to_hidden, CellMaterial};
use crate::object_what::ObjectWhat;
use crate::room::{spec_same_col, spec_same_row, Room, RoomMark};
use crate::spot::DungeonSpot;
use crate::trap::{Trap, TrapType};
use crate::message::{push_decimal, spec_decimal};
use crate::motion::spec_texts;
use crate::random::get_rand;

pub mod dig;
pub mod cells;
pub mod dungeon;
pub mod materials;
pub mod spot;

verus! {

/// Experience points needed to pass each experience level.
pub open spec fn spec_level_points() -> Seq<usize> {
    seq![
        10, 20, 40, 80, 160, 320, 640, 1300, 2600, 5200, 10000, 20000, 40000, 80000, 160000, 320000,
        1000000, 3333333, 6666666, 10000000, 99900000,
    ]
}

/// Experience points needed to pass experience level `level`.
pub fn level_points(level: usize) -> (r: usize)
    requires
        1 <= level <= MAX_EXP_LEVEL,
    ensures
        r == spec_level_points()[level - 1],
{
    let points: [usize; 21] = [
        10, 20, 40, 80, 160, 320, 640, 1300, 2600, 5200, 10000, 20000, 40000, 80000, 160000, 320000,
        1000000, 3333333, 6666666, 10000000, 99900000,
    ];
    assert(points@ == spec_level_points());
    points[level - 1]
}

/// Whether a row and column lie inside the dungeon's array.
pub open spec fn in_dungeon(row: int, col: int) -> bool {
    0 <= row < DROWS && 0 <= col < DCOLS
}

/// The first room slot, in slot order, whose rectangle holds `row`, `col`.
pub open spec fn spec_room_mark(rooms: Seq<Room>, row: i64, col: i64) -> RoomMark
    decreases rooms.len(),
{
    if rooms.len() == 0 {
        RoomMark::Nothing
    } else {
        let first = spec_room_mark(rooms.drop_last(), row, col);
        if first is Cavern {
            first
        } else if rooms.last().spec_contains_spot(row, col) {
            RoomMark::Cavern((rooms.len() - 1) as usize)
        } else {
            RoomMark::Nothing
        }
    }
}

/// The dungeon of one level.
pub struct Level {
    pub target_room_offsets: [isize; 4],
    pub recursive_deadend: Option<usize>,
    pub rooms: [Room; 9],
    pub traps: [Trap; 10],
    pub dungeon: [DungeonRow; 24],
    pub see_invisible: bool,
    pub detect_monster: bool,
    pub party_room: Option<usize>,
    pub new_level_message: Option<String>,
    pub trap_door: bool,
}

impl Level {
    /// The cell at `row`, `col`.
    pub open spec fn cell_at(&self, row: int, col: int) -> DungeonCell {
        self.dungeon@[row]@[col]
    }

    /// Every row holds a cell for every column.
    pub open spec fn wf(&self) -> bool {
        forall|r: int| 0 <= r < DROWS ==> (#[trigger] self.dungeon@[r])@.len() == DCOLS
    }

    /// The cells of the two levels agree everywhere but at `row`, `col`.
    pub open spec fn same_cells_except(&self, other: &Level, row: int, col: int) -> bool {
        forall|r: int, c: int|
            in_dungeon(r, c) && !(r == row && c == col) ==> #[trigger] self.cell_at(r, c)
                == other.cell_at(r, c)
    }

    /// A level with no rooms, no traps and only empty cells.
    pub fn new() -> (r: Self)
        ensures
            r.wf(),
            forall|row: int, col: int| in_dungeon(row, col) ==> #[trigger] r.cell_at(row, col)
                == spec_nothing_cell(),
            forall|rn: int| 0 <= rn < MAX_ROOM ==> (#[trigger] r.rooms@[rn]).room_type is Nothing,
            forall|tn: int| 0 <= tn < MAX_TRAP ==> (#[trigger] r.traps@[tn]).trap_type is NoTrap,
            r.target_room_offsets@ == seq![-1isize, 1isize, 3isize, -3isize],
            r.recursive_deadend is None,
            !r.see_invisible,
            !r.detect_monster,
            r.party_room is None,
            r.new_level_message is None,
            !r.trap_door,
    {
        let r = Level {
            target_room_offsets: [-1, 1, 3, -3],
            recursive_deadend: None,
            rooms: [Room::new(); 9],
            traps: [Trap::new(); 10],
            dungeon: [DungeonRow::new(); 24],
            see_invisible: false,
            detect_monster: false,
            party_room: None,
            new_level_message: None,
            trap_door: false,
        };
        assert(r.target_room_offsets@ == seq![-1isize, 1isize, 3isize, -3isize]);
        r
    }

    /// Empties every room, trap and cell, and forgets the level's magic.
    pub fn clear(&mut self)
        requires
            old(self).wf(),
        ensures
            final(self).wf(),
            forall|row: int, col: int| in_dungeon(row, col) ==> #[trigger] final(self).cell_at(row, col)
                == spec_nothing_cell(),
            forall|rn: int| 0 <= rn < MAX_ROOM ==> (#[trigger] final(self).rooms@[rn]).room_type is Nothing,
            forall|rn: int, d: int| 0 <= rn < MAX_ROOM && 0 <= d < 4
                ==> (#[trigger] final(self).rooms@[rn].doors@[d]).oth_room is None,
            forall|tn: int| 0 <= tn < MAX_TRAP ==> (#[trigger] final(self).traps@[tn]).trap_type is NoTrap,
            !final(self).see_invisible,
            !final(self).detect_monster,
            final(self).party_room is None,
            final(self).target_room_offsets == old(self).target_room_offsets,
            final(self).recursive_deadend == old(self).recursive_deadend,
            final(self).new_level_message == old(self).new_level_message,
            final(self).trap_door == old(self).trap_door,
    {
        let mut rn: usize = 0;
        while rn < MAX_ROOM
            invariant
                rn <= MAX_ROOM,
                forall|k: int| 0 <= k < rn ==> (#[trigger] self.rooms@[k]).room_type is Nothing,
                forall|k: int, d: int| 0 <= k < rn && 0 <= d < 4
                    ==> (#[trigger] self.rooms@[k].doors@[d]).oth_room is None,
                self.dungeon == old(self).dungeon,
                self.target_room_offsets == old(self).target_room_offsets,
                self.recursive_deadend == old(self).recursive_deadend,
                self.new_level_message == old(self).new_level_message,
                self.trap_door == old(self).trap_door,
            decreases MAX_ROOM - rn,
        {
            self.rooms[rn].clear();
            rn += 1;
        }
        let mut tn: usize = 0;
        while tn < MAX_TRAP
            invariant
                tn <= MAX_TRAP,
                forall|k: int| 0 <= k < MAX_ROOM ==> (#[trigger] self.rooms@[k]).room_type is Nothing,
                forall|k: int, d: int| 0 <= k < MAX_ROOM && 0 <= d < 4
                    ==> (#[trigger] self.rooms@[k].doors@[d]).oth_room is None,
                forall|k: int| 0 <= k < tn ==> (#[trigger] self.traps@[k]).trap_type is NoTrap,
                self.dungeon == old(self).dungeon,
                self.target_room_offsets == old(self).target_room_offsets,
                self.recursive_deadend == old(self).recursive_deadend,
                self.new_level_message == old(self).new_level_message,
                self.trap_door == old(self).trap_door,
            decreases MAX_TRAP - tn,
        {
            self.traps[tn].clear();
            tn += 1;
        }
        let mut row: usize = 0;
        while row < DROWS
            invariant
                row <= DROWS,
                forall|k: int| 0 <= k < MAX_ROOM ==> (#[trigger] self.rooms@[k]).room_type is Nothing,
                forall|k: int, d: int| 0 <= k < MAX_ROOM && 0 <= d < 4
                    ==> (#[trigger] self.rooms@[k].doors@[d]).oth_room is None,
                forall|k: int| 0 <= k < MAX_TRAP ==> (#[trigger] self.traps@[k]).trap_type is NoTrap,
                forall|r: int| 0 <= r < DROWS ==> (#[trigger] self.dungeon@[r])@.len() == DCOLS,
                forall|r: int, c: int| 0 <= r < row && 0 <= c < DCOLS ==> #[trigger] self.dungeon@[r]@[c]
                    == spec_nothing_cell(),
                self.target_room_offsets == old(self).target_room_offsets,
                self.recursive_deadend == old(self).recursive_deadend,
                self.new_level_message == old(self).new_level_message,
                self.trap_door == old(self).trap_door,
            decreases DROWS - row,
        {
            let fresh = DungeonRow::new();
            let ghost before = self.dungeon@;
            self.dungeon[row] = fresh;
            assert(self.dungeon@ == before.update(row as int, fresh));
            assert forall|r: int, c: int| 0 <= r < row + 1 && 0 <= c < DCOLS implies #[trigger] self.dungeon@[r]@[c]
                == spec_nothing_cell() by {
                if r == row {
                    assert(self.dungeon@[r] == fresh);
                    assert(fresh@[c] == spec_nothing_cell());
                } else {
                    assert(self.dungeon@[r] == before[r]);
                    assert(before[r]@[c] == spec_nothing_cell());
                }
            }
            assert forall|r: int| 0 <= r < DROWS implies (#[trigger] self.dungeon@[r])@.len() == DCOLS by {
                if r == row {
                    assert(self.dungeon@[r] == fresh);
                } else {
                    assert(self.dungeon@[r] == before[r]);
                }
            }
            row += 1;
        }
        self.see_invisible = false;
        self.detect_monster = false;
        self.party_room = None;
        assert forall|r: int, c: int| in_dungeon(r, c) implies #[trigger] self.cell_at(r, c)
            == spec_nothing_cell() by {
            assert(self.dungeon@[r]@[c] == spec_nothing_cell());
        }
    }

    /// The room whose rectangle holds `row`, `col`: the first such slot.
    pub fn room(&self, row: i64, col: i64) -> (r: RoomMark)
        ensures
            r == spec_room_mark(self.rooms@, row, col),
            match r {
                RoomMark::Cavern(rn) => rn < MAX_ROOM && self.rooms@[rn as int].spec_contains_spot(row, col),
                RoomMark::Nothing => forall|rn: int| 0 <= rn < MAX_ROOM
                    ==> !(#[trigger] self.rooms@[rn]).spec_contains_spot(row, col),
                RoomMark::Passage => false,
            },
    {
        let mut i: usize = 0;
        while i < MAX_ROOM
            invariant
                i <= MAX_ROOM,
                self.rooms@.len() == MAX_ROOM,
                spec_room_mark(self.rooms@.take(i as int), row, col) is Nothing,
                forall|k: int| 0 <= k < i ==> !(#[trigger] self.rooms@[k]).spec_contains_spot(row, col),
            decreases MAX_ROOM - i,
        {
            assert(self.rooms@.take(i + 1).drop_last() == self.rooms@.take(i as int));
            if self.rooms[i].contains_spot(row, col) {
                proof {
                    lemma_room_mark_prefix(self.rooms@, (i + 1) as int, row, col);
                }
                return RoomMark::Cavern(i);
            }
            i += 1;
        }
        assert(self.rooms@.take(MAX_ROOM as int) == self.rooms@);
        RoomMark::Nothing
    }

    /// The room whose rectangle holds `spot`.
    pub fn room_at_spot(&self, spot: DungeonSpot) -> (r: RoomMark)
        ensures
            r == spec_room_mark(self.rooms@, spot.row, spot.col),
    {
        self.room(spot.row, spot.col)
    }

    /// The number of the room whose rectangle holds `row`, `col`; the spot
    /// must lie in a room.
    pub fn expect_room(&self, row: i64, col: i64) -> (r: usize)
        requires
            spec_room_mark(self.rooms@, row, col) is Cavern,
        ensures
            spec_room_mark(self.rooms@, row, col) == RoomMark::Cavern(r),
            r < MAX_ROOM,
    {
        match self.room(row, col) {
            RoomMark::Cavern(rn) => rn,
            _ => 0,
        }
    }

    /// The cell at `spot`.
    pub fn cell(&self, spot: DungeonSpot) -> (r: &DungeonCell)
        requires
            self.wf(),
            in_dungeon(spot.row as int, spot.col as int),
        ensures
            *r == self.cell_at(spot.row as int, spot.col as int),
    {
        self.dungeon[spot.row as usize].cell(spot.col as usize)
    }

    /// The cell at `spot`, to change in place.
    pub fn cell_mut(&mut self, spot: DungeonSpot) -> (r: &mut DungeonCell)
        requires
            old(self).wf(),
            in_dungeon(spot.row as int, spot.col as int),
        ensures
            *r == old(self).cell_at(spot.row as int, spot.col as int),
            final(self).wf(),
            final(self).cell_at(spot.row as int, spot.col as int) == *final(r),
            final(self).same_cells_except(old(self), spot.row as int, spot.col as int),
            final(self).same_but_dungeon(old(self)),
    {
        self.dungeon[spot.row as usize].cell_mut(spot.col as usize)
    }
}

impl Level {
    /// Everything but the cells agrees between the two levels.
    pub open spec fn same_but_dungeon(&self, other: &Level) -> bool {
        &&& self.target_room_offsets == other.target_room_offsets
        &&& self.recursive_deadend == other.recursive_deadend
        &&& self.rooms == other.rooms
        &&& self.traps == other.traps
        &&& self.see_invisible == other.see_invisible
        &&& self.detect_monster == other.detect_monster
        &&& self.party_room == other.party_room
        &&& self.new_level_message == other.new_level_message
        &&& self.trap_door == other.trap_door
    }

    /// Gives the cell at `row`, `col` the material `mat` and clears its
    /// object and monster.
    pub fn set_cell_material(&mut self, row: usize, col: usize, mat: CellMaterial)
        requires
            old(self).wf(),
            row < DROWS,
            col < DCOLS,
        ensures
            final(self).wf(),
            final(self).cell_at(row as int, col as int) == (DungeonCell {
                material: mat,
                object: ObjectWhat::Nothing,
                monster: false,
            }),
            final(self).same_cells_except(old(self), row as int, col as int),
            final(self).same_but_dungeon(old(self)),
    {
        let ghost before = self.dungeon@;
        self.dungeon[row].cols[col].set_material_remove_others(mat);
        proof {
            assert forall|r: int| 0 <= r < DROWS implies (#[trigger] self.dungeon@[r])@.len() == DCOLS by {
                if r != row {
                    assert(self.dungeon@[r] == before[r]);
                }
            }
        }
    }

    /// Hides the door, trap or passage in the cell at `row`, `col`.
    pub fn hide_cell(&mut self, row: usize, col: usize)
        requires
            old(self).wf(),
            row < DROWS,
            col < DCOLS,
        ensures
            final(self).wf(),
            final(self).cell_at(row as int, col as int) == (DungeonCell {
                material: spec_to_hidden(old(self).cell_at(row as int, col as int).material),
                ..old(self).cell_at(row as int, col as int)
            }),
            final(self).same_cells_except(old(self), row as int, col as int),
            final(self).same_but_dungeon(old(self)),
    {
        let ghost before = self.dungeon@;
        self.dungeon[row].cols[col].set_hidden();
        proof {
            assert forall|r: int| 0 <= r < DROWS implies (#[trigger] self.dungeon@[r])@.len() == DCOLS by {
                if r != row {
                    assert(self.dungeon@[r] == before[r]);
                }
            }
        }
    }
}

/// Prefixes of the room slots agree on a room that lies in the prefix.
proof fn lemma_room_mark_prefix(rooms: Seq<Room>, n: int, row: i64, col: i64)
    requires
        0 < n <= rooms.len(),
        spec_room_mark(rooms.take(n - 1), row, col) is Nothing,
        rooms[n - 1].spec_contains_spot(row, col),
    ensures
        spec_room_mark(rooms, row, col) == RoomMark::Cavern((n - 1) as usize),
    decreases rooms.len() - n,
{
    assert(rooms.take(n).drop_last() == rooms.take(n - 1));
    if n == rooms.len() {
        assert(rooms.take(n) == rooms);
    } else {
        lemma_room_mark_grows(rooms, n, row, col);
    }
}

/// Once a prefix of the slots names a room, the whole sequence names it too.
proof fn lemma_room_mark_grows(rooms: Seq<Room>, n: int, row: i64, col: i64)
    requires
        0 <= n <= rooms.len(),
        spec_room_mark(rooms.take(n), row, col) is Cavern,
    ensures
        spec_room_mark(rooms, row, col) == spec_room_mark(rooms.take(n), row, col),
    decreases rooms.len() - n,
{
    if n == rooms.len() {
        assert(rooms.take(n) == rooms);
    } else {
        assert(rooms.take(n + 1).drop_last() == rooms.take(n));
        lemma_room_mark_grows(rooms, n + 1, row, col);
    }
}

/// Whether two room slots lie in the same band of rows.
pub fn same_row(room1: usize, room2: usize) -> (r: bool)
    ensures
        r == spec_same_row(room1, room2),
{
    room1 / 3 == room2 / 3
}

/// Whether two room slots lie in the same band of columns.
pub fn same_col(room1: usize, room2: usize) -> (r: bool)
    ensures
        r == spec_same_col(room1, room2),
{
    room1 % 3 == room2 % 3
}

/// The experience level reached with `points` points: one more than the
/// number of thresholds among the first twenty that `points` has reached,
/// that is the position of the first threshold above `points`.
pub open spec fn spec_exp_level(points: usize) -> usize {
    if points < 10 { 1 }
    else if points < 20 { 2 }
    else if points < 40 { 3 }
    else if points < 80 { 4 }
    else if points < 160 { 5 }
    else if points < 320 { 6 }
    else if points < 640 { 7 }
    else if points < 1300 { 8 }
    else if points < 2600 { 9 }
    else if points < 5200 { 10 }
    else if points < 10000 { 11 }
    else if points < 20000 { 12 }
    else if points < 40000 { 13 }
    else if points < 80000 { 14 }
    else if points < 160000 { 15 }
    else if points < 320000 { 16 }
    else if points < 1000000 { 17 }
    else if points < 3333333 { 18 }
    else if points < 6666666 { 19 }
    else if points < 10000000 { 20 }
    else { 21 }
}

/// The experience level reached with `level` points.
pub fn get_exp_level(level: usize) -> (r: usize)
    ensures
        r == spec_exp_level(level),
        1 <= r <= MAX_EXP_LEVEL,
        r < MAX_EXP_LEVEL ==> spec_level_points()[r - 1] > level,
        forall|i: int| 0 <= i < r - 1 ==> spec_level_points()[i] <= level,
{
    let mut i: usize = 0;
    while i < MAX_EXP_LEVEL - 1
        invariant
            i <= MAX_EXP_LEVEL - 1,
            forall|j: int| 0 <= j < i ==> spec_level_points()[j] <= level,
        decreases MAX_EXP_LEVEL - 1 - i,
    {
        if level_points(i + 1) > level {
            return i + 1;
        }
        i += 1;
    }
    assert(spec_level_points()[19] <= level);
    i + 1
}

/// Experience points and the experience level they have earned.
#[derive(Debug, Copy, Clone, Eq, PartialEq, Structural)]
pub struct RogueExp {
    pub points: usize,
    pub level: usize,
}

impl RogueExp {
    /// No points, at the first level.
    pub fn new() -> (r: Self)
        ensures
            r == (RogueExp { points: 0, level: 1 }),
    {
        Self { points: 0, level: 1 }
    }

    /// Sets the experience level.
    pub fn set_level(&mut self, value: usize)
        ensures
            *final(self) == (RogueExp { level: value, ..*old(self) }),
    {
        self.level = value;
    }

    /// Sets the points to the threshold of the current level.
    pub fn raise_level(&mut self)
        requires
            1 <= old(self).level <= MAX_EXP_LEVEL,
        ensures
            *final(self) == (RogueExp {
                points: spec_level_points()[old(self).level - 1],
                ..*old(self)
            }),
    {
        self.points = level_points(self.level);
    }

    /// Adds `points` and returns the experience as it was.  Reaching the
    /// current level's threshold sets the level from the new total, and the
    /// total is then held at no more than one above the highest number of
    /// points; below the threshold the level stays.
    pub fn add_points_take_old(&mut self, points: usize) -> (r: Self)
        requires
            1 <= old(self).level <= MAX_EXP_LEVEL,
            old(self).points + points <= usize::MAX,
        ensures
            r == *old(self),
            ({
                let total = (old(self).points + points) as usize;
                if total >= spec_level_points()[old(self).level - 1] {
                    *final(self) == RogueExp {
                        points: if total <= MAX_EXP + 1 { total } else { (MAX_EXP + 1) as usize },
                        level: spec_exp_level(total),
                    }
                } else {
                    *final(self) == RogueExp { points: total, level: old(self).level }
                }
            }),
    {
        let old = *self;
        let new_level;
        let mut new_points = old.points + points;
        if new_points >= level_points(old.level) {
            new_level = get_exp_level(new_points);
            new_points = if new_points <= MAX_EXP + 1 { new_points } else { MAX_EXP + 1 };
        } else {
            new_level = old.level;
        }
        self.points = new_points;
        self.level = new_level;
        old
    }
}

/// More points never give a lower experience level.
pub proof fn law_exp_level_monotone(p1: usize, p2: usize)
    requires
        p1 <= p2,
    ensures
        spec_exp_level(p1) <= spec_exp_level(p2),
{
}

/// The experience level is the first threshold above the points: every
/// earlier threshold has been reached and, below the top level, its own
/// threshold has not.
pub proof fn law_exp_level_matches_thresholds(points: usize)
    ensures
        1 <= spec_exp_level(points) <= MAX_EXP_LEVEL,
        spec_exp_level(points) < MAX_EXP_LEVEL ==> spec_level_points()[spec_exp_level(points) - 1]
            > points,
        forall|i: int| 0 <= i < spec_exp_level(points) - 1 ==> spec_level_points()[i] <= points,
{
}

/// What the experience the rogue earns reads and changes.
pub struct ExpState {
    /// The rogue's experience.
    pub exp: RogueExp,
    /// The rogue's hit points.
    pub hp_current: isize,
    /// The rogue's most hit points.
    pub hp_max: isize,
    /// The entries written to the message diary, oldest first.
    pub messages: Vec<String>,
    /// Whether the status line must be redrawn.
    pub stats_changed: bool,
}

/// The experience after `points` more points are added to `old`.
pub open spec fn spec_exp_after(old: RogueExp, points: usize) -> RogueExp {
    let total = (old.points + points) as usize;
    if total >= spec_level_points()[old.level - 1] {
        RogueExp {
            points: if total <= MAX_EXP + 1 { total } else { (MAX_EXP + 1) as usize },
            level: spec_exp_level(total),
        }
    } else {
        RogueExp { points: total, level: old.level }
    }
}

/// The greeting for reaching experience level `level`.
pub open spec fn spec_welcome(level: int) -> Seq<char> {
    "welcome to level "@ + spec_decimal(level as nat)
}

/// The greetings for the levels after `from` up to `from + count`.
pub open spec fn spec_welcomes(from: int, count: nat) -> Seq<Seq<char>> {
    Seq::new(count, |k: int| spec_welcome(from + 1 + k))
}

/// The hit points a new experience level brings: ten for a wizard, else
/// from three to ten.
pub fn hp_raise(wizard: bool) -> (r: isize)
    ensures
        wizard ==> r == 10,
        !wizard ==> 3 <= r <= 10,
{
    if wizard {
        10
    } else {
        get_rand(3, 10) as isize
    }
}

/// Adds `e` points of experience.  For each experience level gained the
/// diary greets it, and with `promotion` the rogue's hit points and most hit
/// points both grow by what `hp_raise` gives; the status line is marked in
/// every case.
pub fn add_exp(e: usize, promotion: bool, wizard: bool, state: &mut ExpState)
    requires
        1 <= old(state).exp.level <= MAX_EXP_LEVEL,
        old(state).exp.points + e <= usize::MAX,
        old(state).hp_current + 10 * MAX_EXP_LEVEL <= isize::MAX,
        old(state).hp_max + 10 * MAX_EXP_LEVEL <= isize::MAX,
    ensures
        final(state).exp == spec_exp_after(old(state).exp, e),
        final(state).stats_changed,
        ({
            let gained: int = if final(state).exp.level > old(state).exp.level {
                final(state).exp.level - old(state).exp.level
            } else {
                0
            };
            &&& spec_texts(final(state).messages@) == spec_texts(old(state).messages@)
                + spec_welcomes(old(state).exp.level as int, gained as nat)
            &&& final(state).hp_current - old(state).hp_current == final(state).hp_max - old(state).hp_max
            &&& !promotion ==> final(state).hp_current == old(state).hp_current
            &&& promotion && wizard ==> final(state).hp_current == old(state).hp_current + 10 * gained
            &&& promotion ==> old(state).hp_current + 3 * gained <= final(state).hp_current
                <= old(state).hp_current + 10 * gained
        }),
{
    let ghost old_texts = spec_texts(state.messages@);
    let ghost old_hp = state.hp_current;
    let ghost old_max = state.hp_max;
    let old = state.exp.add_points_take_old(e);
    let new_exp = state.exp;
    let new_level = new_exp.level;
    proof {
        law_exp_level_matches_thresholds((old.points + e) as usize);
    }
    if new_level > old.level {
        let mut i = old.level + 1;
        while i <= new_level
            invariant
                old.level + 1 <= i <= new_level + 1,
                1 <= old.level,
                new_level <= MAX_EXP_LEVEL,
                state.exp.points == new_exp.points,
                i == old.level + 1 ==> state.exp.level == new_level,
                i > old.level + 1 ==> state.exp.level == i - 1,
                i > old.level + 1 ==> state.stats_changed,
                spec_texts(state.messages@) == old_texts + spec_welcomes(old.level as int, (i - old.level - 1) as nat),
                state.hp_current - old_hp == state.hp_max - old_max,
                old_hp + 10 * MAX_EXP_LEVEL <= isize::MAX,
                old_max + 10 * MAX_EXP_LEVEL <= isize::MAX,
                !promotion ==> state.hp_current == old_hp,
                promotion && wizard ==> state.hp_current == old_hp + 10 * (i - old.level - 1),
                promotion ==> old_hp + 3 * (i - old.level - 1) <= state.hp_current <= old_hp + 10 * (i
                    - old.level - 1),
            decreases new_level + 1 - i,
        {
            let ghost before = spec_texts(state.messages@);
            let mut msg = String::new();
            msg.append("welcome to level ");
            push_decimal(&mut msg, i);
            proof {
                reveal_strlit("welcome to level ");
                assert(msg@ =~= spec_welcome(i as int));
            }
            state.messages.push(msg);
            proof {
                assert(spec_texts(state.messages@) =~= before.push(spec_welcome(i as int)));
                assert(spec_welcomes(old.level as int, (i - old.level) as nat) =~= spec_welcomes(
                    old.level as int,
                    (i - old.level - 1) as nat,
                ).push(spec_welcome(i as int)));
            }
            if promotion {
                let hp = hp_raise(wizard);
                state.hp_current = state.hp_current + hp;
                state.hp_max = state.hp_max + hp;
            }
            state.exp.set_level(i);
            state.stats_changed = true;
            i = i + 1;
        }
    } else {
        state.stats_changed = true;
        proof {
            assert(spec_welcomes(old.level as int, 0) =~= Seq::<Seq<char>>::empty());
            assert(spec_texts(state.messages@) =~= old_texts + spec_welcomes(old.level as int, 0));
        }
    }
}

} // verus!
