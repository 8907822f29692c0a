//! Rooms of a level and the doors in their walls.
use vstd::prelude::*;

use crate::level::materials::{CellMaterial, FloorFixture};
use crate::random::get_rand;
use crate::spot::DungeonSpot;

verus! {

/// The wall of a room that a door stands in.
#[derive(Debug, Copy, Clone, Eq, PartialEq, Structural)]
pub enum DoorDirection {
    Up,
    Right,
    Down,
    Left,
}

impl DoorDirection {
    /// Whether the door stands in the top or the bottom wall.
    pub fn is_up_or_down(&self) -> (r: bool)
        ensures
            r == (*self is Up || *self is Down),
    {
        match self {
            DoorDirection::Up | DoorDirection::Down => true,
            _ => false,
        }
    }

    /// The opposite wall.
    pub fn inverse(&self) -> (r: Self)
        ensures
            r == spec_inverse(*self),
    {
        match self {
            DoorDirection::Up => DoorDirection::Down,
            DoorDirection::Down => DoorDirection::Up,
            DoorDirection::Left => DoorDirection::Right,
            DoorDirection::Right => DoorDirection::Left,
        }
    }

    /// The slot of the door in a room's table of doors.
    pub fn to_index(&self) -> (r: usize)
        ensures
            r == spec_door_index(*self),
            r < 4,
    {
        match self {
            DoorDirection::Up => 0,
            DoorDirection::Right => 1,
            DoorDirection::Down => 2,
            DoorDirection::Left => 3,
        }
    }

    /// The step in rows and columns that leads through this wall.
    pub fn as_delta_row_col(&self) -> (r: (i64, i64))
        ensures
            r == spec_delta(*self),
    {
        match self {
            DoorDirection::Up => (-1, 0),
            DoorDirection::Down => (1, 0),
            DoorDirection::Left => (0, -1),
            DoorDirection::Right => (0, 1),
        }
    }
}

/// What a room slot of the level holds.
#[derive(Debug, Copy, Clone, Eq, PartialEq, Structural)]
pub enum RoomType {
    Nothing,
    Room,
    Maze,
    DeadEnd,
    Cross,
}

impl RoomType {
    /// Whether the slot holds nothing.
    pub fn is_nothing(&self) -> (r: bool)
        ensures
            r == (*self is Nothing),
    {
        *self == RoomType::Nothing
    }

    /// Whether the slot is a crossing of passages.
    pub fn is_cross(&self) -> (r: bool)
        ensures
            r == (*self is Cross),
    {
        *self == RoomType::Cross
    }

    /// Whether the slot is one of `types`.
    pub fn is_type(&self, types: &Vec<RoomType>) -> (r: bool)
        ensures
            r == types@.contains(*self),
    {
        let mut i: usize = 0;
        while i < types.len()
            invariant
                i <= types@.len(),
                forall|j: int| 0 <= j < i ==> types@[j] != *self,
            decreases types@.len() - i,
        {
            if types[i] == *self {
                return true;
            }
            i += 1;
        }
        false
    }
}

/// The rectangle of a room, walls included.
#[derive(Debug, Copy, Clone, Eq, PartialEq, Structural)]
pub struct RoomBounds {
    pub top: i64,
    pub right: i64,
    pub bottom: i64,
    pub left: i64,
}

/// The material of a spot of a freshly built room: top and bottom walls,
/// side walls, and floor inside.
pub open spec fn spec_room_material(b: RoomBounds, row: i64, col: i64) -> CellMaterial {
    if row == b.top || row == b.bottom {
        CellMaterial::HorizontalWall
    } else if col == b.left || col == b.right {
        CellMaterial::VerticalWall
    } else {
        CellMaterial::Floor(FloorFixture::Nothing)
    }
}

impl RoomBounds {
    /// A spot drawn evenly from the rectangle.
    pub fn to_random_spot(&self) -> (r: DungeonSpot)
        requires
            self.top <= self.bottom,
            self.left <= self.right,
        ensures
            self.spec_contains(r.row as int, r.col as int),
    {
        let row = get_rand(self.top, self.bottom);
        let col = get_rand(self.left, self.right);
        DungeonSpot { row, col }
    }

    /// Whether `spot` lies in the rectangle.
    pub open spec fn spec_contains(&self, row: int, col: int) -> bool {
        self.top <= row <= self.bottom && self.left <= col <= self.right
    }

    /// The material that a room with these bounds has at `spot`.
    pub fn cell_material_for_spot(&self, spot: &DungeonSpot) -> (r: CellMaterial)
        ensures
            r == spec_room_material(*self, spot.row, spot.col),
    {
        if spot.row == self.top || spot.row == self.bottom {
            CellMaterial::HorizontalWall
        } else if spot.col == self.left || spot.col == self.right {
            CellMaterial::VerticalWall
        } else {
            CellMaterial::Floor(FloorFixture::Nothing)
        }
    }
}

/// A door of a room and the room it leads to.
#[derive(Debug, Copy, Clone, Eq, PartialEq, Structural)]
pub struct Door {
    pub oth_room: Option<usize>,
    pub oth_row: i64,
    pub oth_col: i64,
    pub door_row: i64,
    pub door_col: i64,
}

impl Door {
    /// A door that leads nowhere yet.
    pub fn new() -> (r: Self)
        ensures
            r == (Door { oth_room: None, oth_row: 0, oth_col: 0, door_row: 0, door_col: 0 }),
    {
        Door { oth_room: None, oth_row: 0, oth_col: 0, door_row: 0, door_col: 0 }
    }

    /// Records that the door leads to room `rn`, whose door stands at `spot`.
    pub fn set_others(&mut self, rn: usize, spot: &DungeonSpot)
        ensures
            *final(self) == (Door {
                oth_room: Some(rn),
                oth_row: spot.row,
                oth_col: spot.col,
                ..*old(self)
            }),
    {
        self.oth_room = Some(rn);
        self.oth_row = spot.row;
        self.oth_col = spot.col;
    }
}

/// One room slot of a level.
#[derive(Debug, Copy, Clone)]
pub struct Room {
    pub bottom_row: i64,
    pub right_col: i64,
    pub left_col: i64,
    pub top_row: i64,
    pub doors: [Door; 4],
    pub room_type: RoomType,
}

impl Room {
    /// An empty slot with no doors.
    pub fn new() -> (r: Self)
        ensures
            r.room_type is Nothing,
            forall|d: int| 0 <= d < 4 ==> r.doors@[d].oth_room is None,
            r.top_row == 0 && r.bottom_row == 0 && r.left_col == 0 && r.right_col == 0,
    {
        Room {
            bottom_row: 0,
            right_col: 0,
            left_col: 0,
            top_row: 0,
            doors: [Door::new(); 4],
            room_type: RoomType::Nothing,
        }
    }

    /// The room's rectangle, walls included.
    pub open spec fn to_bounds(&self) -> RoomBounds {
        RoomBounds { top: self.top_row, right: self.right_col, bottom: self.bottom_row, left: self.left_col }
    }

    /// Whether `row`, `col` lies in the room, walls included.
    pub open spec fn spec_contains_spot(&self, row: i64, col: i64) -> bool {
        self.top_row <= row <= self.bottom_row && self.left_col <= col <= self.right_col
    }

    /// Whether `row`, `col` lies in the room, walls included.
    pub fn contains_spot(&self, row: i64, col: i64) -> (r: bool)
        ensures
            r == self.spec_contains_spot(row, col),
    {
        self.top_row <= row && row <= self.bottom_row && self.left_col <= col && col
            <= self.right_col
    }

    /// Gives the room the rectangle `bounds`.
    pub fn set_bounds(&mut self, bounds: &RoomBounds)
        ensures
            *final(self) == (Room {
                top_row: bounds.top,
                bottom_row: bounds.bottom,
                left_col: bounds.left,
                right_col: bounds.right,
                ..*old(self)
            }),
    {
        self.top_row = bounds.top;
        self.bottom_row = bounds.bottom;
        self.left_col = bounds.left;
        self.right_col = bounds.right;
    }

    /// The room's rectangle, walls included.
    pub fn to_wall_bounds(&self) -> (r: RoomBounds)
        ensures
            r == (RoomBounds {
                top: self.top_row,
                right: self.right_col,
                bottom: self.bottom_row,
                left: self.left_col,
            }),
    {
        RoomBounds {
            top: self.top_row,
            right: self.right_col,
            bottom: self.bottom_row,
            left: self.left_col,
        }
    }

    /// The room's floor: its rectangle without the walls.
    pub fn to_floor_bounds(&self) -> (r: RoomBounds)
        requires
            self.top_row < i64::MAX,
            self.left_col < i64::MAX,
            self.bottom_row > i64::MIN,
            self.right_col > i64::MIN,
        ensures
            r == (RoomBounds {
                top: (self.top_row + 1) as i64,
                right: (self.right_col - 1) as i64,
                bottom: (self.bottom_row - 1) as i64,
                left: (self.left_col + 1) as i64,
            }),
    {
        RoomBounds {
            top: self.top_row + 1,
            right: self.right_col - 1,
            bottom: self.bottom_row - 1,
            left: self.left_col + 1,
        }
    }

    /// The spot in the middle of the room.
    pub fn center_spot(&self) -> (r: DungeonSpot)
        requires
            0 <= self.top_row <= self.bottom_row <= i64::MAX / 2,
            0 <= self.left_col <= self.right_col <= i64::MAX / 2,
        ensures
            r == (DungeonSpot {
                row: ((self.top_row + self.bottom_row) / 2) as i64,
                col: ((self.left_col + self.right_col) / 2) as i64,
            }),
    {
        DungeonSpot {
            row: (self.top_row + self.bottom_row) / 2,
            col: (self.left_col + self.right_col) / 2,
        }
    }

    /// Empties the slot: nothing in it and no doors.
    pub fn clear(&mut self)
        ensures
            final(self).room_type is Nothing,
            forall|d: int| 0 <= d < 4 ==> final(self).doors@[d].oth_room is None,
            final(self).top_row == old(self).top_row,
            final(self).bottom_row == old(self).bottom_row,
            final(self).left_col == old(self).left_col,
            final(self).right_col == old(self).right_col,
    {
        self.room_type = RoomType::Nothing;
        let mut d: usize = 0;
        while d < 4
            invariant
                d <= 4,
                self.room_type is Nothing,
                forall|e: int| 0 <= e < d ==> self.doors@[e].oth_room is None,
                self.top_row == old(self).top_row,
                self.bottom_row == old(self).bottom_row,
                self.left_col == old(self).left_col,
                self.right_col == old(self).right_col,
            decreases 4 - d,
        {
            self.doors[d].oth_room = None;
            d += 1;
        }
    }
}

/// Whether the room slots `room1` and `room2` lie in the same band of rows.
pub open spec fn spec_same_row(room1: usize, room2: usize) -> bool {
    room1 / 3 == room2 / 3
}

/// Whether the room slots `room1` and `room2` lie in the same band of columns.
pub open spec fn spec_same_col(room1: usize, room2: usize) -> bool {
    room1 % 3 == room2 % 3
}

/// Which room, if any, a spot of the level lies in.
#[derive(Debug, Copy, Clone, Eq, PartialEq, Structural)]
pub enum RoomMark {
    Nothing,
    Passage,
    Cavern(usize),
}

impl RoomMark {
    /// The number of the room, where the mark names one.
    pub fn rn(&self) -> (r: Option<usize>)
        ensures
            r == (match *self {
                RoomMark::Cavern(rn) => Some(rn),
                _ => None,
            }),
    {
        match self {
            RoomMark::Cavern(rn) => Some(*rn),
            _ => None,
        }
    }
}

/// The opposite wall.
pub open spec fn spec_inverse(d: DoorDirection) -> DoorDirection {
    match d {
        DoorDirection::Up => DoorDirection::Down,
        DoorDirection::Down => DoorDirection::Up,
        DoorDirection::Left => DoorDirection::Right,
        DoorDirection::Right => DoorDirection::Left,
    }
}

/// Slot of a door in a room's table of doors.
pub open spec fn spec_door_index(d: DoorDirection) -> usize {
    match d {
        DoorDirection::Up => 0,
        DoorDirection::Right => 1,
        DoorDirection::Down => 2,
        DoorDirection::Left => 3,
    }
}

/// Step through a wall.
pub open spec fn spec_delta(d: DoorDirection) -> (i64, i64) {
    match d {
        DoorDirection::Up => (-1i64, 0i64),
        DoorDirection::Down => (1i64, 0i64),
        DoorDirection::Left => (0i64, -1i64),
        DoorDirection::Right => (0i64, 1i64),
    }
}

/// Going through a wall and back through the opposite one returns to the
/// first wall, and the two walls hold different door slots.
pub proof fn law_inverse_round_trip(d: DoorDirection)
    ensures
        spec_inverse(spec_inverse(d)) == d,
        spec_inverse(d) != d,
        spec_door_index(spec_inverse(d)) != spec_door_index(d),
        spec_delta(spec_inverse(d)).0 == -spec_delta(d).0,
        spec_delta(spec_inverse(d)).1 == -spec_delta(d).1,
{
}

/// Two slots share a band of rows, or of columns, both ways round.
pub proof fn law_same_band_symmetric(a: usize, b: usize)
    ensures
        spec_same_row(a, b) == spec_same_row(b, a),
        spec_same_col(a, b) == spec_same_col(b, a),
{
}

} // verus!
