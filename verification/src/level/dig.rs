//! Digging a level out of rock: rooms in a three by three grid of slots,
//! doors in their walls, passages between them, mazes and dead ends.
use vstd::prelude::*;

use crate::constants::{AMULET_LEVEL, COL1, COL2, DCOLS, DROWS, HIDE_PERCENT, MAX_ROOM, MIN_ROW, ROW1, ROW2};
use crate::level::cells::DungeonCell;
use crate::level::materials::{spec_to_hidden, CellMaterial, TunnelFixture, Visibility};
use crate::level::{in_dungeon, Level};
use crate::object_what::ObjectWhat;
use crate::random::{coin_toss, get_rand, get_rand_usize, rand_percent, shuffle_array};
use crate::level::{same_col, same_row};
use crate::room::{spec_delta, spec_inverse, spec_same_col, spec_same_row, spec_door_index, spec_room_material, DoorDirection, Room, RoomBounds, RoomType};
use crate::spot::DungeonSpot;
use crate::level::dungeon::DungeonRow;
use crate::trap::{is_off_screen, spec_is_off_screen};
use crate::objects::object_pack::ObjectPack;
use crate::objects::placing::put_amulet;

verus! {

/// The part of the dungeon that room slot `rn` may fill, walls included.
pub open spec fn spec_slot_bounds(rn: usize) -> RoomBounds {
    let left: i64 = if rn % 3 == 0 { 0 } else if rn % 3 == 1 { (COL1 + 1) as i64 } else { (COL2 + 1) as i64 };
    let right: i64 = if rn % 3 == 0 { (COL1 - 1) as i64 } else if rn % 3 == 1 { (COL2 - 1) as i64 } else { (DCOLS - 1) as i64 };
    let top: i64 = if rn / 3 == 0 { MIN_ROW } else if rn / 3 == 1 { (ROW1 + 1) as i64 } else { (ROW2 + 1) as i64 };
    let bottom: i64 = if rn / 3 == 0 { (ROW1 - 1) as i64 } else if rn / 3 == 1 { (ROW2 - 1) as i64 } else { (DROWS - 2) as i64 };
    RoomBounds { top, right, bottom, left }
}

/// The part of the dungeon that room slot `rn` may fill, walls included.
fn slot_bounds(rn: usize) -> (r: RoomBounds)
    requires
        rn < MAX_ROOM,
    ensures
        r == spec_slot_bounds(rn),
{
    let left: i64 = if rn % 3 == 0 { 0 } else if rn % 3 == 1 { COL1 + 1 } else { COL2 + 1 };
    let right: i64 = if rn % 3 == 0 { COL1 - 1 } else if rn % 3 == 1 { COL2 - 1 } else { DCOLS as i64 - 1 };
    let top: i64 = if rn / 3 == 0 { MIN_ROW } else if rn / 3 == 1 { ROW1 + 1 } else { ROW2 + 1 };
    let bottom: i64 = if rn / 3 == 0 { ROW1 - 1 } else if rn / 3 == 1 { ROW2 - 1 } else { DROWS as i64 - 2 };
    RoomBounds { top, right, bottom, left }
}

/// A rectangle that a room of slot `rn` may take: inside the slot, at least
/// four rows high and seven columns wide, and at most two columns narrower
/// than the slot.
pub open spec fn spec_fits_slot(b: RoomBounds, rn: usize) -> bool {
    let s = spec_slot_bounds(rn);
    &&& s.top <= b.top
    &&& b.bottom <= s.bottom
    &&& b.bottom - b.top + 1 >= 4
    &&& s.left <= b.left
    &&& b.right <= s.right
    &&& 7 <= b.right - b.left + 1 <= s.right - s.left - 2
}

/// The cell that a freshly built room with bounds `b` has at `row`, `col`.
pub open spec fn spec_room_cell(b: RoomBounds, row: int, col: int) -> DungeonCell {
    DungeonCell {
        material: spec_room_material(b, row as i64, col as i64),
        object: ObjectWhat::Nothing,
        monster: false,
    }
}

/// Builds the walls and floor of a room with bounds `b`; no other cell
/// changes.
fn carve_room(b: &RoomBounds, level: &mut Level)
    requires
        old(level).wf(),
        0 <= b.top <= b.bottom < DROWS,
        0 <= b.left <= b.right < DCOLS,
    ensures
        final(level).wf(),
        final(level).same_but_dungeon(old(level)),
        forall|r: int, c: int|
            in_dungeon(r, c) ==> #[trigger] final(level).cell_at(r, c) == if b.spec_contains(r, c) {
                spec_room_cell(*b, r, c)
            } else {
                old(level).cell_at(r, c)
            },
{
    let mut row: i64 = b.top;
    while row <= b.bottom
        invariant
            level.wf(),
            level.same_but_dungeon(old(level)),
            0 <= b.top <= row <= b.bottom + 1,
            b.bottom < DROWS,
            0 <= b.left <= b.right < DCOLS,
            forall|r: int, c: int|
                in_dungeon(r, c) ==> #[trigger] level.cell_at(r, c) == if b.spec_contains(r, c) && r
                    < row {
                    spec_room_cell(*b, r, c)
                } else {
                    old(level).cell_at(r, c)
                },
        decreases b.bottom + 1 - row,
    {
        let mut col: i64 = b.left;
        while col <= b.right
            invariant
                level.wf(),
                level.same_but_dungeon(old(level)),
                0 <= b.top <= row <= b.bottom,
                b.bottom < DROWS,
                0 <= b.left <= col <= b.right + 1,
                b.right < DCOLS,
                forall|r: int, c: int|
                    in_dungeon(r, c) ==> #[trigger] level.cell_at(r, c) == if b.spec_contains(r, c)
                        && (r < row || (r == row && c < col)) {
                        spec_room_cell(*b, r, c)
                    } else {
                        old(level).cell_at(r, c)
                    },
            decreases b.right + 1 - col,
        {
            let mat = b.cell_material_for_spot(&crate::spot::DungeonSpot { row, col });
            level.set_cell_material(row as usize, col as usize, mat);
            col += 1;
        }
        row += 1;
    }
}

/// Lays out room slot `rn` (below `MAX_ROOM`): a rectangle of random size and
/// place inside the slot.  The room is built (its walls and floor dug and
/// its slot marked a room) unless it is none of `r1`, `r2`, `r3`, the slots
/// that must hold a room, and a draw of 40 percent leaves it unbuilt; an
/// unbuilt slot keeps its type and the cells stay as they were.  The slot
/// takes the rectangle either way; nothing else of the level changes.
pub fn make_room(rn: usize, r1: usize, r2: usize, r3: usize, level: &mut Level)
    requires
        old(level).wf(),
        rn < MAX_ROOM,
    ensures
        final(level).wf(),
        spec_fits_slot(final(level).rooms@[rn as int].to_bounds(), rn),
        final(level).rooms@[rn as int].doors == old(level).rooms@[rn as int].doors,
        forall|k: int| 0 <= k < MAX_ROOM && k != rn ==> #[trigger] final(level).rooms@[k] == old(
            level,
        ).rooms@[k],
        final(level).traps == old(level).traps,
        final(level).target_room_offsets == old(level).target_room_offsets,
        final(level).recursive_deadend == old(level).recursive_deadend,
        final(level).party_room == old(level).party_room,
        ({
            let b = final(level).rooms@[rn as int].to_bounds();
            ||| {
                &&& final(level).rooms@[rn as int].room_type is Room
                &&& forall|r: int, c: int|
                    in_dungeon(r, c) ==> #[trigger] final(level).cell_at(r, c) == if b.spec_contains(
                        r,
                        c,
                    ) {
                        spec_room_cell(b, r, c)
                    } else {
                        old(level).cell_at(r, c)
                    }
            }
            ||| {
                &&& rn != r1 && rn != r2 && rn != r3
                &&& final(level).rooms@[rn as int].room_type == old(level).rooms@[rn as int].room_type
                &&& final(level).dungeon == old(level).dungeon
            }
        }),
{
    let slot = slot_bounds(rn);
    let height = get_rand(4, slot.bottom - slot.top + 1);
    let width = get_rand(7, (slot.right - slot.left) - 2);
    let row_offset = get_rand(0, (slot.bottom - slot.top) - height + 1);
    let col_offset = get_rand(0, (slot.right - slot.left) - width + 1);
    let top = slot.top + row_offset;
    let bottom = top + height - 1;
    let left = slot.left + col_offset;
    let right = left + width - 1;
    let skip_walls = (rn != r1) && (rn != r2) && (rn != r3) && rand_percent(40);
    let room_bounds = RoomBounds { top, right, bottom, left };
    if !skip_walls {
        carve_room(&room_bounds, level);
        let ghost carved = *level;
        level.rooms[rn].room_type = RoomType::Room;
        level.rooms[rn].set_bounds(&room_bounds);
        assert(level.dungeon == carved.dungeon);
        assert(level.rooms@[rn as int].to_bounds() == room_bounds);
        assert forall|r: int, c: int| in_dungeon(r, c) implies #[trigger] level.cell_at(r, c) == if room_bounds.spec_contains(r, c) {
            spec_room_cell(room_bounds, r, c)
        } else {
            old(level).cell_at(r, c)
        } by {
            assert(level.cell_at(r, c) == carved.cell_at(r, c));
        }
    } else {
        level.rooms[rn].set_bounds(&room_bounds);
        assert(level.rooms@[rn as int].to_bounds() == room_bounds);
    }
}

/// The room's rectangle lies inside the dungeon.
pub open spec fn spec_room_in_dungeon(room: Room) -> bool {
    &&& 0 <= room.top_row <= room.bottom_row < DROWS
    &&& 0 <= room.left_col <= room.right_col < DCOLS
}

/// How far from the corners a door must stand: one cell for a room, none
/// for a maze.
pub open spec fn spec_wall_width(room: Room) -> int {
    if room.room_type is Maze { 0 } else { 1 }
}

/// The lowest and highest position along wall `dir` of `room` that a door
/// may take: columns for the top and bottom walls, rows for the sides.
pub open spec fn spec_wall_range(room: Room, dir: DoorDirection) -> (int, int) {
    let w = spec_wall_width(room);
    match dir {
        DoorDirection::Up | DoorDirection::Down => (room.left_col + w, room.right_col - w),
        DoorDirection::Left | DoorDirection::Right => (room.top_row + w, room.bottom_row - w),
    }
}

/// The spot at position `k` along wall `dir` of `room`.
pub open spec fn spec_wall_spot(room: Room, dir: DoorDirection, k: int) -> (int, int) {
    match dir {
        DoorDirection::Up => (room.top_row as int, k),
        DoorDirection::Down => (room.bottom_row as int, k),
        DoorDirection::Left => (k, room.left_col as int),
        DoorDirection::Right => (k, room.right_col as int),
    }
}

/// Whether position `k` along wall `dir` of room `rn` can take a door: it
/// lies between the corners and holds passage or that wall.
pub open spec fn spec_door_candidate(level: Level, rn: usize, dir: DoorDirection, k: int) -> bool {
    let room = level.rooms@[rn as int];
    let (lo, hi) = spec_wall_range(room, dir);
    let (r, c) = spec_wall_spot(room, dir, k);
    let m = level.cell_at(r, c).material;
    &&& lo <= k <= hi
    &&& in_dungeon(r, c)
    &&& (m is Tunnel || (if dir is Up || dir is Down { m is HorizontalWall } else { m is VerticalWall }))
}

/// Whether some position along wall `dir` of room `rn` can take a door.
pub open spec fn spec_has_door_candidate(level: Level, rn: usize, dir: DoorDirection) -> bool {
    exists|k: int| #[trigger] spec_door_candidate(level, rn, dir, k)
}

/// The positions along wall `dir` of room `rn` that can take a door, lowest
/// first.
fn door_candidates(rn: usize, dir: DoorDirection, level: &Level) -> (r: Vec<i64>)
    requires
        level.wf(),
        rn < MAX_ROOM,
        spec_room_in_dungeon(level.rooms@[rn as int]),
    ensures
        forall|i: int| 0 <= i < r@.len() ==> spec_door_candidate(*level, rn, dir, #[trigger] r@[i] as int),
        forall|k: int| #[trigger] spec_door_candidate(*level, rn, dir, k) ==> r@.contains(k as i64),
{
    let room = level.rooms[rn];
    let w: i64 = if room.room_type == RoomType::Maze { 0 } else { 1 };
    let up_down = dir.is_up_or_down();
    let lo: i64 = if up_down { room.left_col + w } else { room.top_row + w };
    let hi: i64 = if up_down { room.right_col - w } else { room.bottom_row - w };
    let mut out: Vec<i64> = Vec::new();
    let mut k: i64 = lo;
    while k <= hi
        invariant
            level.wf(),
            rn < MAX_ROOM,
            room == level.rooms@[rn as int],
            spec_room_in_dungeon(room),
            up_down == (dir is Up || dir is Down),
            (lo as int, hi as int) == spec_wall_range(room, dir),
            lo <= k,
            k <= hi + 1 || k == lo,
            forall|i: int| 0 <= i < out@.len() ==> spec_door_candidate(*level, rn, dir, #[trigger] out@[i] as int),
            forall|j: int| lo <= j < k && #[trigger] spec_door_candidate(*level, rn, dir, j) ==> out@.contains(j as i64),
        decreases hi + 1 - k,
    {
        let (r, c): (i64, i64) = match dir {
            DoorDirection::Up => (room.top_row, k),
            DoorDirection::Down => (room.bottom_row, k),
            DoorDirection::Left => (k, room.left_col),
            DoorDirection::Right => (k, room.right_col),
        };
        if 0 <= r && r < DROWS as i64 && 0 <= c && c < DCOLS as i64 {
            let cell = level.dungeon[r as usize].get(c as usize);
            let fits = cell.is_any_tunnel() || (if up_down { cell.is_horizontal_wall() } else { cell.is_vertical_wall() });
            if fits {
                let ghost before = out@;
                out.push(k);
                assert(out@[out@.len() - 1] == k);
                assert forall|j: int| lo <= j < k + 1 && #[trigger] spec_door_candidate(*level, rn, dir, j) implies out@.contains(j as i64) by {
                    if j < k {
                        assert(before.contains(j as i64));
                        let idx = choose|idx: int| 0 <= idx < before.len() && before[idx] == j as i64;
                        assert(out@[idx] == j as i64);
                    }
                }
            }
        }
        k += 1;
    }
    out
}

/// Puts a door in wall `door_dir` of room `rn`, at a spot drawn evenly
/// among those that can take one (which must exist), and returns the spot.
/// In a room the cell becomes a visible door; in a maze it keeps its
/// passage.  Below depth two, a draw of 12 percent hides what is there.
/// The room records the spot as its door on that wall.
pub fn put_door(rn: usize, door_dir: DoorDirection, level_depth: usize, level: &mut Level) -> (r: DungeonSpot)
    requires
        old(level).wf(),
        rn < MAX_ROOM,
        spec_room_in_dungeon(old(level).rooms@[rn as int]),
        spec_has_door_candidate(*old(level), rn, door_dir),
    ensures
        final(level).wf(),
        ({
            let k = if door_dir is Up || door_dir is Down { r.col as int } else { r.row as int };
            &&& spec_door_candidate(*old(level), rn, door_dir, k)
            &&& spec_wall_spot(old(level).rooms@[rn as int], door_dir, k) == (r.row as int, r.col as int)
        }),
        ({
            let before = old(level).cell_at(r.row as int, r.col as int);
            let after = final(level).cell_at(r.row as int, r.col as int);
            if old(level).rooms@[rn as int].room_type is Room {
                ||| after == (DungeonCell { material: CellMaterial::Door(door_dir, Visibility::Visible), object: ObjectWhat::Nothing, monster: false })
                ||| (level_depth > 2 && after == (DungeonCell { material: CellMaterial::Door(door_dir, Visibility::Hidden), object: ObjectWhat::Nothing, monster: false }))
            } else {
                ||| after == before
                ||| (level_depth > 2 && after == (DungeonCell { material: spec_to_hidden(before.material), ..before }))
            }
        }),
        final(level).same_cells_except(old(level), r.row as int, r.col as int),
        forall|k: int| 0 <= k < MAX_ROOM && k != rn ==> #[trigger] final(level).rooms@[k] == old(level).rooms@[k],
        final(level).rooms@[rn as int].to_bounds() == old(level).rooms@[rn as int].to_bounds(),
        final(level).rooms@[rn as int].room_type == old(level).rooms@[rn as int].room_type,
        forall|d: int| 0 <= d < 4 && d != spec_door_index(door_dir) ==> #[trigger] final(level).rooms@[rn as int].doors@[d] == old(level).rooms@[rn as int].doors@[d],
        final(level).rooms@[rn as int].doors@[spec_door_index(door_dir) as int] == (crate::room::Door {
            door_row: r.row,
            door_col: r.col,
            ..old(level).rooms@[rn as int].doors@[spec_door_index(door_dir) as int]
        }),
        final(level).traps == old(level).traps,
        final(level).target_room_offsets == old(level).target_room_offsets,
        final(level).recursive_deadend == old(level).recursive_deadend,
        final(level).party_room == old(level).party_room,
        final(level).see_invisible == old(level).see_invisible,
        final(level).detect_monster == old(level).detect_monster,
        final(level).new_level_message == old(level).new_level_message,
        final(level).trap_door == old(level).trap_door,
{
    let cands = door_candidates(rn, door_dir, level);
    let ghost k0 = choose|k: int| #[trigger] spec_door_candidate(*level, rn, door_dir, k);
    assert(cands@.contains(k0 as i64));
    let pick = get_rand_usize(0, cands.len() - 1);
    let k = cands[pick];
    assert(spec_door_candidate(*level, rn, door_dir, k as int));
    let room = level.rooms[rn];
    let door_spot = match door_dir {
        DoorDirection::Up => DungeonSpot { row: room.top_row, col: k },
        DoorDirection::Down => DungeonSpot { row: room.bottom_row, col: k },
        DoorDirection::Left => DungeonSpot { row: k, col: room.left_col },
        DoorDirection::Right => DungeonSpot { row: k, col: room.right_col },
    };
    let ghost start = *level;
    if room.room_type == RoomType::Room {
        level.set_cell_material(door_spot.row as usize, door_spot.col as usize, CellMaterial::Door(door_dir, Visibility::Visible));
    }
    let ghost mid = *level;
    if (level_depth > 2) && rand_percent(HIDE_PERCENT) {
        level.hide_cell(door_spot.row as usize, door_spot.col as usize);
    }
    let ghost hidden = *level;
    let door_index = door_dir.to_index();
    level.rooms[rn].doors[door_index].door_row = door_spot.row;
    level.rooms[rn].doors[door_index].door_col = door_spot.col;
    assert(level.dungeon == hidden.dungeon);
    assert(final(level).cell_at(door_spot.row as int, door_spot.col as int) == hidden.cell_at(door_spot.row as int, door_spot.col as int));
    assert forall|rr: int, cc: int| in_dungeon(rr, cc) && !(rr == door_spot.row && cc == door_spot.col) implies #[trigger] level.cell_at(rr, cc) == start.cell_at(rr, cc) by {
        assert(level.cell_at(rr, cc) == hidden.cell_at(rr, cc));
        assert(hidden.cell_at(rr, cc) == mid.cell_at(rr, cc));
    }
    door_spot
}

/// A cell of passage just dug, found or hidden, with nothing on it.
pub open spec fn spec_is_fresh_tunnel(c: DungeonCell) -> bool {
    &&& c.object is Nothing
    &&& !c.monster
    &&& (c.material == CellMaterial::Tunnel(Visibility::Visible, TunnelFixture::Nothing)
        || c.material == CellMaterial::Tunnel(Visibility::Hidden, TunnelFixture::Nothing))
}

/// The new cell is the old one, or the old passage hidden.
pub open spec fn spec_kept_or_hidden(before: DungeonCell, after: DungeonCell) -> bool {
    ||| after == before
    ||| (before.material is Tunnel && after == (DungeonCell { material: spec_to_hidden(before.material), ..before }))
}

/// The cell of passage that digging leaves.
pub open spec fn spec_tunnel_cell() -> DungeonCell {
    DungeonCell {
        material: CellMaterial::Tunnel(Visibility::Visible, TunnelFixture::Nothing),
        object: ObjectWhat::Nothing,
        monster: false,
    }
}

/// Whether `r`, `c` lies on the straight run from `from` to `to` (both
/// included) along row `fixed` (`along_row`) or along column `fixed`.
pub open spec fn spec_on_run(fixed: int, from: int, to: int, along_row: bool, r: int, c: int) -> bool {
    if along_row {
        r == fixed && from <= c <= to
    } else {
        c == fixed && from <= r <= to
    }
}

/// Digs passage along a straight run from `from` to `to`, both included:
/// along row `fixed` when `along_row`, else along column `fixed`.
fn dig_run(fixed: i64, from: i64, to: i64, along_row: bool, level: &mut Level)
    requires
        old(level).wf(),
        from <= to ==> (if along_row {
            0 <= fixed < DROWS && 0 <= from && to < DCOLS
        } else {
            0 <= fixed < DCOLS && 0 <= from && to < DROWS
        }),
    ensures
        final(level).wf(),
        final(level).same_but_dungeon(old(level)),
        forall|r: int, c: int|
            in_dungeon(r, c) ==> #[trigger] final(level).cell_at(r, c) == if spec_on_run(
                fixed as int,
                from as int,
                to as int,
                along_row,
                r,
                c,
            ) {
                spec_tunnel_cell()
            } else {
                old(level).cell_at(r, c)
            },
{
    let mut i: i64 = from;
    while i <= to
        invariant
            level.wf(),
            level.same_but_dungeon(old(level)),
            from <= i,
            i <= to + 1 || i == from,
            from <= to ==> (if along_row {
                0 <= fixed < DROWS && 0 <= from && to < DCOLS
            } else {
                0 <= fixed < DCOLS && 0 <= from && to < DROWS
            }),
            forall|r: int, c: int|
                in_dungeon(r, c) ==> #[trigger] level.cell_at(r, c) == if spec_on_run(
                    fixed as int,
                    from as int,
                    (i - 1) as int,
                    along_row,
                    r,
                    c,
                ) {
                    spec_tunnel_cell()
                } else {
                    old(level).cell_at(r, c)
                },
        decreases to + 1 - i,
    {
        if along_row {
            level.set_cell_material(fixed as usize, i as usize, CellMaterial::Tunnel(Visibility::Visible, TunnelFixture::Nothing));
        } else {
            level.set_cell_material(i as usize, fixed as usize, CellMaterial::Tunnel(Visibility::Visible, TunnelFixture::Nothing));
        }
        i += 1;
    }
}

/// Below depth two, hides up to `n` stretches of passage inside the box
/// between the two corners: for each, up to ten spots are drawn inside the
/// box (one cell in from an edge that is two or more cells long) and the
/// first that holds passage is hidden, so at most `n` cells change.  Boxes
/// less than five cells long on both sides are left alone.  No cell
/// changes but passage that becomes hidden.
fn hide_boxed_passage(row1: i64, col1: i64, row2: i64, col2: i64, n: i64, level_depth: usize, level: &mut Level)
    requires
        old(level).wf(),
        in_dungeon(row1 as int, col1 as int),
        in_dungeon(row2 as int, col2 as int),
    ensures
        final(level).wf(),
        final(level).same_but_dungeon(old(level)),
        forall|r: int, c: int|
            in_dungeon(r, c) ==> spec_kept_or_hidden(old(level).cell_at(r, c), #[trigger] final(level).cell_at(r, c)),
        forall|r: int, c: int|
            in_dungeon(r, c) && !(spec_min(row1 as int, row2 as int) <= r <= spec_max(row1 as int, row2 as int)
                && spec_min(col1 as int, col2 as int) <= c <= spec_max(col1 as int, col2 as int))
                ==> #[trigger] final(level).cell_at(r, c) == old(level).cell_at(r, c),
        level_depth <= 2 ==> final(level).dungeon == old(level).dungeon,
        !spec_box_big(row1 as int, col1 as int, row2 as int, col2 as int) || n <= 0 ==> final(level).dungeon == old(level).dungeon,
        level_depth > 2 && spec_box_big(row1 as int, col1 as int, row2 as int, col2 as int) && n >= 1
            && spec_box_all_tunnel(*old(level), row1 as int, col1 as int, row2 as int, col2 as int)
            ==> exists|r: int, c: int| spec_box_inner(row1 as int, col1 as int, row2 as int, col2 as int, r, c)
                && #[trigger] final(level).cell_at(r, c) == (DungeonCell {
                    material: spec_to_hidden(old(level).cell_at(r, c).material),
                    ..old(level).cell_at(r, c)
                }),
        exists|cells: Set<(int, int)>| cells.finite() && cells.len() <= spec_max(n as int, 0)
            && #[trigger] spec_changed_within(*old(level), *final(level), cells),
{
    let ghost mut changed: Set<(int, int)> = Set::empty();
    assert(spec_changed_within(*old(level), *level, changed));
    if level_depth <= 2 {
        return;
    }
    let ghost (r1, c1, r2, c2) = (row1 as int, col1 as int, row2 as int, col2 as int);
    let (row1, row2) = if row1 > row2 { (row2, row1) } else { (row1, row2) };
    let (col1, col2) = if col1 > col2 { (col2, col1) } else { (col1, col2) };
    let h = row2 - row1;
    let w = col2 - col1;
    if (w >= 5) || (h >= 5) {
        let row_cut: i64 = if h >= 2 { 1 } else { 0 };
        let col_cut: i64 = if w >= 2 { 1 } else { 0 };
        let mut i: i64 = 0;
        while i < n
            invariant
                level.wf(),
                level.same_but_dungeon(old(level)),
                row1 <= row2 < DROWS,
                0 <= row1,
                col1 <= col2 < DCOLS,
                0 <= col1,
                row_cut == (if row2 - row1 >= 2 { 1i64 } else { 0i64 }),
                col_cut == (if col2 - col1 >= 2 { 1i64 } else { 0i64 }),
                forall|r: int, c: int|
                    in_dungeon(r, c) ==> spec_kept_or_hidden(old(level).cell_at(r, c), #[trigger] level.cell_at(r, c)),
                forall|r: int, c: int|
                    in_dungeon(r, c) && !(row1 <= r <= row2 && col1 <= c <= col2) ==> #[trigger] level.cell_at(r, c) == old(level).cell_at(r, c),
                forall|r: int, c: int| spec_box_inner(r1, c1, r2, c2, r, c) <==> (row1 + row_cut <= r <= row2 - row_cut
                    && col1 + col_cut <= c <= col2 - col_cut),
                i > 0 && spec_box_all_tunnel(*old(level), r1, c1, r2, c2) ==> exists|r: int, c: int| spec_box_inner(r1, c1, r2, c2, r, c)
                    && #[trigger] level.cell_at(r, c) == (DungeonCell {
                        material: spec_to_hidden(old(level).cell_at(r, c).material),
                        ..old(level).cell_at(r, c)
                    }),
                i >= 0,
                i <= spec_max(n as int, 0),
                changed.finite(),
                changed.len() <= i,
                spec_changed_within(*old(level), *level, changed),
                i == 0 ==> *level == *old(level),
                n <= 0 ==> i == 0,
            decreases n - i,
        {
            let mut tries: usize = 0;
            while tries < 10
                invariant_except_break
                    spec_box_all_tunnel(*old(level), r1, c1, r2, c2) ==> tries == 0,
                    changed.len() <= i,
                invariant
                    changed.finite(),
                    changed.len() <= i + 1,
                    spec_changed_within(*old(level), *level, changed),
                    0 <= i < n,
                    forall|r: int, c: int| spec_box_inner(r1, c1, r2, c2, r, c) <==> (row1 + row_cut <= r <= row2 - row_cut
                        && col1 + col_cut <= c <= col2 - col_cut),
                    level.wf(),
                    level.same_but_dungeon(old(level)),
                    row1 <= row2 < DROWS,
                    0 <= row1,
                    col1 <= col2 < DCOLS,
                    0 <= col1,
                    row_cut == (if row2 - row1 >= 2 { 1i64 } else { 0i64 }),
                    col_cut == (if col2 - col1 >= 2 { 1i64 } else { 0i64 }),
                    forall|r: int, c: int|
                        in_dungeon(r, c) ==> spec_kept_or_hidden(old(level).cell_at(r, c), #[trigger] level.cell_at(r, c)),
                    forall|r: int, c: int|
                        in_dungeon(r, c) && !(row1 <= r <= row2 && col1 <= c <= col2) ==> #[trigger] level.cell_at(r, c) == old(level).cell_at(r, c),
                ensures
                    spec_box_all_tunnel(*old(level), r1, c1, r2, c2) ==> exists|r: int, c: int| spec_box_inner(r1, c1, r2, c2, r, c)
                        && #[trigger] level.cell_at(r, c) == (DungeonCell {
                            material: spec_to_hidden(old(level).cell_at(r, c).material),
                            ..old(level).cell_at(r, c)
                        }),
                decreases 10 - tries,
            {
                let row = get_rand(row1 + row_cut, row2 - row_cut);
                let col = get_rand(col1 + col_cut, col2 - col_cut);
                if level.dungeon[row as usize].get(col as usize).is_any_tunnel() {
                    let ghost before = *level;
                    level.hide_cell(row as usize, col as usize);
                    proof {
                        let prev = changed;
                        changed = changed.insert((row as int, col as int));
                        assert forall|r: int, c: int| in_dungeon(r, c) && #[trigger] level.cell_at(r, c) != old(level).cell_at(r, c)
                            implies changed.contains((r, c)) by {
                            if !(r == row && c == col) {
                                assert(level.cell_at(r, c) == before.cell_at(r, c));
                                assert(prev.contains((r, c)));
                            }
                        }
                    }
                    assert forall|r: int, c: int| in_dungeon(r, c) implies spec_kept_or_hidden(old(level).cell_at(r, c), #[trigger] level.cell_at(r, c)) by {
                        if r == row && c == col {
                            assert(spec_kept_or_hidden(old(level).cell_at(r, c), before.cell_at(r, c)));
                        } else {
                            assert(level.cell_at(r, c) == before.cell_at(r, c));
                        }
                    }
                    proof {
                        if spec_box_all_tunnel(*old(level), r1, c1, r2, c2) {
                            let (r, c) = (row as int, col as int);
                            assert(spec_box_inner(r1, c1, r2, c2, r, c));
                            assert(old(level).cell_at(r, c).material is Tunnel);
                            assert(spec_kept_or_hidden(old(level).cell_at(r, c), before.cell_at(r, c)));
                            assert(level.cell_at(r, c) == (DungeonCell {
                                material: spec_to_hidden(old(level).cell_at(r, c).material),
                                ..old(level).cell_at(r, c)
                            }));
                        }
                    }
                    break;
                }
                proof {
                    if spec_box_all_tunnel(*old(level), r1, c1, r2, c2) {
                        assert(spec_box_inner(r1, c1, r2, c2, row as int, col as int));
                        assert(old(level).cell_at(row as int, col as int).material is Tunnel);
                        assert(spec_kept_or_hidden(old(level).cell_at(row as int, col as int), level.cell_at(row as int, col as int)));
                    }
                }
                tries += 1;
            }
            i += 1;
        }
    }
}

/// Whether every cell that differs between `before` and `after` lies in
/// `cells`.
pub open spec fn spec_changed_within(before: Level, after: Level, cells: Set<(int, int)>) -> bool {
    forall|r: int, c: int| in_dungeon(r, c) && #[trigger] after.cell_at(r, c) != before.cell_at(r, c) ==> cells.contains((r, c))
}

/// Whether the box between the corners `row1`, `col1` and `row2`, `col2`
/// is five or more cells long on one side.
pub open spec fn spec_box_big(row1: int, col1: int, row2: int, col2: int) -> bool {
    spec_max(row1, row2) - spec_min(row1, row2) >= 5 || spec_max(col1, col2) - spec_min(col1, col2) >= 5
}

/// Whether `r`, `c` lies inside the box between the corners `row1`, `col1`
/// and `row2`, `col2`, one cell in from each edge that is two or more
/// cells long.
pub open spec fn spec_box_inner(row1: int, col1: int, row2: int, col2: int, r: int, c: int) -> bool {
    let (lo_r, hi_r) = (spec_min(row1, row2), spec_max(row1, row2));
    let (lo_c, hi_c) = (spec_min(col1, col2), spec_max(col1, col2));
    let cut_r = if hi_r - lo_r >= 2 { 1int } else { 0int };
    let cut_c = if hi_c - lo_c >= 2 { 1int } else { 0int };
    lo_r + cut_r <= r <= hi_r - cut_r && lo_c + cut_c <= c <= hi_c - cut_c
}

/// Whether every cell inside the box between the corners `row1`, `col1`
/// and `row2`, `col2` (as `spec_box_inner` has it) holds passage.
pub open spec fn spec_box_all_tunnel(level: Level, row1: int, col1: int, row2: int, col2: int) -> bool {
    forall|r: int, c: int| spec_box_inner(row1, col1, row2, col2, r, c) ==> (#[trigger] level.cell_at(r, c)).material is Tunnel
}

/// The two ends of a passage in the order it is drawn: the one further
/// left first for a passage that leaves sideways, the one higher up first
/// otherwise.
pub open spec fn spec_passage_ends(s1: DungeonSpot, s2: DungeonSpot, dir: DoorDirection) -> (DungeonSpot, DungeonSpot) {
    if dir is Left || dir is Right {
        if s1.col <= s2.col { (s1, s2) } else { (s2, s1) }
    } else {
        if s1.row <= s2.row { (s1, s2) } else { (s2, s1) }
    }
}

/// The lower of two integers.
pub open spec fn spec_min(x: int, y: int) -> int {
    if x <= y { x } else { y }
}

/// The higher of two integers.
pub open spec fn spec_max(x: int, y: int) -> int {
    if x <= y { y } else { x }
}

/// Whether `m` can be where a passage from `a` to `b` turns: between the
/// cell after `a` and the cell before `b`, in the direction of travel.
pub open spec fn spec_turn_ok(a: DungeonSpot, b: DungeonSpot, dir: DoorDirection, m: int) -> bool {
    if dir is Left || dir is Right {
        spec_min(a.col + 1, b.col - 1) <= m <= spec_max(a.col + 1, b.col - 1)
    } else {
        spec_min(a.row + 1, b.row - 1) <= m <= spec_max(a.row + 1, b.row - 1)
    }
}

/// Whether `r`, `c` lies on the passage from `a` to `b` that turns at `m`:
/// sideways it runs along `a`'s row to column `m`, along that column to
/// `b`'s row and along that row to just before `b`; otherwise the same with
/// rows and columns swapped, stopping just before row `m` on the way down.
pub open spec fn spec_on_passage(a: DungeonSpot, b: DungeonSpot, dir: DoorDirection, m: int, r: int, c: int) -> bool {
    if dir is Left || dir is Right {
        ||| spec_on_run(a.row as int, a.col + 1, m, true, r, c)
        ||| spec_on_run(m, spec_min(a.row as int, b.row as int), spec_max(a.row as int, b.row as int), false, r, c)
        ||| spec_on_run(b.row as int, m, b.col - 1, true, r, c)
    } else {
        ||| spec_on_run(a.col as int, a.row + 1, m - 1, false, r, c)
        ||| spec_on_run(m, spec_min(a.col as int, b.col as int), spec_max(a.col as int, b.col as int), true, r, c)
        ||| spec_on_run(b.col as int, m, b.row - 1, false, r, c)
    }
}

/// Whether a passage between `s1` and `s2` stays inside the dungeon
/// wherever it turns.
pub open spec fn spec_passage_fits(s1: DungeonSpot, s2: DungeonSpot, dir: DoorDirection) -> bool {
    let (a, b) = spec_passage_ends(s1, s2, dir);
    &&& in_dungeon(a.row as int, a.col as int)
    &&& in_dungeon(b.row as int, b.col as int)
    &&& if dir is Left || dir is Right {
        0 <= spec_min(a.col + 1, b.col - 1) && spec_max(a.col + 1, b.col - 1) < DCOLS
    } else {
        0 <= spec_min(a.row + 1, b.row - 1) && spec_max(a.row + 1, b.row - 1) < DROWS
    }
}

/// `after` is `before` with the passage from `a` to `b` turning at `m`
/// dug: every cell on it fresh passage, every other cell kept or its
/// passage hidden.
pub open spec fn spec_passage_drawn(before: Level, after: Level, a: DungeonSpot, b: DungeonSpot, dir: DoorDirection, m: int) -> bool {
    &&& spec_turn_ok(a, b, dir, m)
    &&& forall|r: int, c: int|
        in_dungeon(r, c) ==> if spec_on_passage(a, b, dir, m, r, c) {
            spec_is_fresh_tunnel(#[trigger] after.cell_at(r, c))
        } else {
            spec_kept_or_hidden(before.cell_at(r, c), after.cell_at(r, c))
        }
}

/// Whether the ends of a passage that leaves in direction `dir` lie two or
/// more cells apart across it: columns for one that leaves sideways, rows
/// otherwise.
pub open spec fn spec_passage_spread(spot1: DungeonSpot, spot2: DungeonSpot, dir: DoorDirection) -> bool {
    if dir is Left || dir is Right {
        spec_max(spot1.col as int, spot2.col as int) - spec_min(spot1.col as int, spot2.col as int) >= 2
    } else {
        spec_max(spot1.row as int, spot2.row as int) - spec_min(spot1.row as int, spot2.row as int) >= 2
    }
}

/// Digs a passage between `spot1` and `spot2` that leaves in direction
/// `dir`: from the nearer end it runs straight to a turning point drawn
/// between the two, crosses over, and runs on to the other end.  A draw of
/// 12 percent then hides some of the passage in the box between the ends.
/// Where the ends lie two or more cells apart across the passage, nothing
/// outside that box changes.
#[verifier::spinoff_prover]
#[verifier::rlimit(60)]
pub fn draw_simple_passage(spot1: DungeonSpot, spot2: DungeonSpot, dir: DoorDirection, level_depth: usize, level: &mut Level)
    requires
        old(level).wf(),
        spec_passage_fits(spot1, spot2, dir),
    ensures
        final(level).wf(),
        final(level).same_but_dungeon(old(level)),
        exists|m: int|
            #[trigger] spec_passage_drawn(
                *old(level),
                *final(level),
                spec_passage_ends(spot1, spot2, dir).0,
                spec_passage_ends(spot1, spot2, dir).1,
                dir,
                m,
            ),
        spec_passage_spread(spot1, spot2, dir) ==> forall|r: int, c: int|
            in_dungeon(r, c) && !(spec_min(spot1.row as int, spot2.row as int) <= r <= spec_max(spot1.row as int, spot2.row as int)
                && spec_min(spot1.col as int, spot2.col as int) <= c <= spec_max(spot1.col as int, spot2.col as int))
                ==> #[trigger] final(level).cell_at(r, c) == old(level).cell_at(r, c),
{
    let ghost start = *level;
    let (a, b, m) = match dir {
        DoorDirection::Left | DoorDirection::Right => {
            let (a, b) = if spot1.col <= spot2.col { (spot1, spot2) } else { (spot2, spot1) };
            let middle_col = get_rand(a.col + 1, b.col - 1);
            dig_run(a.row, a.col + 1, middle_col, true, level);
            let (lo, hi) = if a.row <= b.row { (a.row, b.row) } else { (b.row, a.row) };
            dig_run(middle_col, lo, hi, false, level);
            dig_run(b.row, middle_col, b.col - 1, true, level);
            (a, b, middle_col)
        },
        DoorDirection::Up | DoorDirection::Down => {
            let (a, b) = if spot1.row <= spot2.row { (spot1, spot2) } else { (spot2, spot1) };
            let middle_row = get_rand(a.row + 1, b.row - 1);
            dig_run(a.col, a.row + 1, middle_row - 1, false, level);
            let (lo, hi) = if a.col <= b.col { (a.col, b.col) } else { (b.col, a.col) };
            dig_run(middle_row, lo, hi, true, level);
            dig_run(b.col, middle_row, b.row - 1, false, level);
            (a, b, middle_row)
        },
    };
    let ghost dug = *level;
    assert forall|r: int, c: int| in_dungeon(r, c) implies #[trigger] dug.cell_at(r, c) == if spec_on_passage(a, b, dir, m as int, r, c) {
        spec_tunnel_cell()
    } else {
        start.cell_at(r, c)
    } by {}
    if rand_percent(HIDE_PERCENT) {
        hide_boxed_passage(a.row, a.col, b.row, b.col, 1, level_depth, level);
    }
    assert((a, b) == spec_passage_ends(spot1, spot2, dir));
    assert(spec_passage_drawn(start, *level, a, b, dir, m as int));
    assert forall|r: int, c: int|
        spec_passage_spread(spot1, spot2, dir) && in_dungeon(r, c) && !(spec_min(spot1.row as int, spot2.row as int) <= r <= spec_max(spot1.row as int, spot2.row as int)
            && spec_min(spot1.col as int, spot2.col as int) <= c <= spec_max(spot1.col as int, spot2.col as int))
            implies #[trigger] level.cell_at(r, c) == start.cell_at(r, c) by {
        lemma_passage_in_box(spot1, spot2, dir, m as int, r, c);
        assert(dug.cell_at(r, c) == start.cell_at(r, c));
    }
}

/// A passage whose ends lie two or more cells apart across it stays in the
/// box between its ends.
proof fn lemma_passage_in_box(spot1: DungeonSpot, spot2: DungeonSpot, dir: DoorDirection, m: int, r: int, c: int)
    requires
        spec_passage_spread(spot1, spot2, dir),
        spec_turn_ok(spec_passage_ends(spot1, spot2, dir).0, spec_passage_ends(spot1, spot2, dir).1, dir, m),
        !(spec_min(spot1.row as int, spot2.row as int) <= r <= spec_max(spot1.row as int, spot2.row as int)
            && spec_min(spot1.col as int, spot2.col as int) <= c <= spec_max(spot1.col as int, spot2.col as int)),
    ensures
        !spec_on_passage(spec_passage_ends(spot1, spot2, dir).0, spec_passage_ends(spot1, spot2, dir).1, dir, m, r, c),
{
}

/// The wall of `room1` through which a passage to `room2` leaves: left or
/// right for slots in one band of rows whose rooms lie side by side, up or
/// down for slots in one band of columns whose rooms lie one above the
/// other, none otherwise.
pub open spec fn spec_direction_between(level: Level, room1: usize, room2: usize) -> Option<DoorDirection> {
    let a = level.rooms@[room1 as int];
    let b = level.rooms@[room2 as int];
    if spec_same_row(room1, room2) && a.left_col > b.right_col {
        Some(DoorDirection::Left)
    } else if spec_same_row(room1, room2) && b.left_col > a.right_col {
        Some(DoorDirection::Right)
    } else if spec_same_col(room1, room2) && a.top_row > b.bottom_row {
        Some(DoorDirection::Up)
    } else if spec_same_col(room1, room2) && b.top_row > a.bottom_row {
        Some(DoorDirection::Down)
    } else {
        None
    }
}

impl DoorDirection {
    /// The wall of `room1` through which a passage to `room2` leaves, if
    /// the two rooms face each other.
    pub fn from_room_to_room(room1: usize, room2: usize, level: &Level) -> (r: Option<DoorDirection>)
        requires
            room1 < MAX_ROOM,
            room2 < MAX_ROOM,
        ensures
            r == spec_direction_between(*level, room1, room2),
    {
        let a = &level.rooms[room1];
        let b = &level.rooms[room2];
        if same_row(room1, room2) && a.left_col > b.right_col {
            Some(DoorDirection::Left)
        } else if same_row(room1, room2) && b.left_col > a.right_col {
            Some(DoorDirection::Right)
        } else if same_col(room1, room2) && a.top_row > b.bottom_row {
            Some(DoorDirection::Up)
        } else if same_col(room1, room2) && b.top_row > a.bottom_row {
            Some(DoorDirection::Down)
        } else {
            None
        }
    }
}

/// Whether room slot `rn` holds a room or a maze.
pub open spec fn spec_is_room_or_maze(level: Level, rn: usize) -> bool {
    level.rooms@[rn as int].room_type is Room || level.rooms@[rn as int].room_type is Maze
}

/// The new cell is the old one, the old passage hidden, or fresh passage.
pub open spec fn spec_cell_dug(before: DungeonCell, after: DungeonCell) -> bool {
    spec_kept_or_hidden(before, after) || spec_is_fresh_tunnel(after)
}

/// Whether some position along wall `dir` of room `rn` can take a door.
fn has_door_candidate(rn: usize, dir: DoorDirection, level: &Level) -> (r: bool)
    requires
        level.wf(),
        rn < MAX_ROOM,
        spec_room_in_dungeon(level.rooms@[rn as int]),
    ensures
        r == spec_has_door_candidate(*level, rn, dir),
{
    let cands = door_candidates(rn, dir, level);
    if cands.len() > 0 {
        assert(spec_door_candidate(*level, rn, dir, cands@[0] as int));
        true
    } else {
        assert forall|k: int| !#[trigger] spec_door_candidate(*level, rn, dir, k) by {
            if spec_door_candidate(*level, rn, dir, k) {
                assert(cands@.contains(k as i64));
            }
        }
        false
    }
}

/// Highest number of times one passage between two doors is dug over.
pub const MAX_PASSAGE_DRAWS: usize = 100;

/// Joins rooms `room1` and `room2` when both hold a room or a maze and
/// they face each other: a door goes in each facing wall, a passage is dug
/// between the doors (and dug again over a new route while a draw of 4
/// percent succeeds, at most a hundred times), and each door records the
/// other room and the other door.  Returns whether the rooms were joined.
/// Rooms are also left apart where a facing wall has no spot left for a
/// door.  Apart from the two door cells, cells only gain passage or have
/// passage hidden.
pub fn connect_rooms(room1: usize, room2: usize, level_depth: usize, level: &mut Level) -> (r: bool)
    requires
        old(level).wf(),
        room1 < MAX_ROOM,
        room2 < MAX_ROOM,
        spec_is_room_or_maze(*old(level), room1) && spec_is_room_or_maze(*old(level), room2) ==> spec_room_in_dungeon(
            old(level).rooms@[room1 as int],
        ) && spec_room_in_dungeon(old(level).rooms@[room2 as int]),
    ensures
        final(level).wf(),
        r == (spec_is_room_or_maze(*old(level), room1) && spec_is_room_or_maze(*old(level), room2)
            && spec_direction_between(*old(level), room1, room2) is Some
            && spec_has_door_candidate(*old(level), room1, spec_direction_between(*old(level), room1, room2)->0)
            && spec_has_door_candidate(*old(level), room2, spec_inverse(spec_direction_between(*old(level), room1, room2)->0))),
        !r ==> *final(level) == *old(level),
        r ==> ({
            let dir1 = spec_direction_between(*old(level), room1, room2)->0;
            let dir2 = spec_inverse(dir1);
            let d1 = final(level).rooms@[room1 as int].doors@[spec_door_index(dir1) as int];
            let d2 = final(level).rooms@[room2 as int].doors@[spec_door_index(dir2) as int];
            &&& d1.oth_room == Some(room2)
            &&& d2.oth_room == Some(room1)
            &&& d1.oth_row == d2.door_row && d1.oth_col == d2.door_col
            &&& d2.oth_row == d1.door_row && d2.oth_col == d1.door_col
            &&& forall|rr: int, cc: int|
                in_dungeon(rr, cc) && !(rr == d1.door_row && cc == d1.door_col) && !(rr == d2.door_row && cc == d2.door_col)
                    ==> spec_cell_dug(old(level).cell_at(rr, cc), #[trigger] final(level).cell_at(rr, cc))
        }),
        forall|k: int| 0 <= k < MAX_ROOM ==> (#[trigger] final(level).rooms@[k]).to_bounds() == old(level).rooms@[k].to_bounds(),
        forall|k: int| 0 <= k < MAX_ROOM ==> (#[trigger] final(level).rooms@[k]).room_type == old(level).rooms@[k].room_type,
        forall|k: int| 0 <= k < MAX_ROOM && k != room1 && k != room2 ==> #[trigger] final(level).rooms@[k] == old(level).rooms@[k],
        final(level).traps == old(level).traps,
        final(level).target_room_offsets == old(level).target_room_offsets,
        final(level).recursive_deadend == old(level).recursive_deadend,
        final(level).party_room == old(level).party_room,
        spec_links_in_range(old(level).rooms@) ==> spec_links_in_range(final(level).rooms@),
{
    let kinds = vec![RoomType::Room, RoomType::Maze];
    if !level.rooms[room1].room_type.is_type(&kinds) || !level.rooms[room2].room_type.is_type(&kinds) {
        return false;
    }
    let dir1 = match DoorDirection::from_room_to_room(room1, room2, level) {
        Some(dir) => dir,
        None => {
            return false;
        },
    };
    let dir2 = dir1.inverse();
    if !has_door_candidate(room1, dir1, level) || !has_door_candidate(room2, dir2, level) {
        return false;
    }
    let ghost start = *level;
    let spot1 = put_door(room1, dir1, level_depth, level);
    let ghost after1 = *level;
    proof {
        let k2 = choose|k: int| #[trigger] spec_door_candidate(start, room2, dir2, k);
        assert(spec_door_candidate(start, room2, dir2, k2));
        assert(level.rooms@[room2 as int] == start.rooms@[room2 as int]);
        let (r2, c2) = spec_wall_spot(start.rooms@[room2 as int], dir2, k2);
        assert(!(r2 == spot1.row && c2 == spot1.col));
        assert(level.cell_at(r2, c2) == start.cell_at(r2, c2));
        assert(spec_door_candidate(*level, room2, dir2, k2));
    }
    let spot2 = put_door(room2, dir2, level_depth, level);
    let ghost after2 = *level;
    assert(spec_passage_fits(spot1, spot2, dir1));
    let mut draw_again = true;
    let mut draws: usize = 0;
    while draw_again && draws < MAX_PASSAGE_DRAWS
        invariant
            level.wf(),
            level.same_but_dungeon(&after2),
            spec_passage_fits(spot1, spot2, dir1),
            forall|rr: int, cc: int|
                in_dungeon(rr, cc) ==> spec_cell_dug(after2.cell_at(rr, cc), #[trigger] level.cell_at(rr, cc)),
        decreases MAX_PASSAGE_DRAWS - draws,
    {
        let ghost before = *level;
        draw_simple_passage(spot1, spot2, dir1, level_depth, level);
        proof {
            let (a, b) = spec_passage_ends(spot1, spot2, dir1);
            let m = choose|m: int| #[trigger] spec_passage_drawn(before, *level, a, b, dir1, m);
            assert forall|rr: int, cc: int| in_dungeon(rr, cc) implies spec_cell_dug(after2.cell_at(rr, cc), #[trigger] level.cell_at(rr, cc)) by {
                assert(spec_cell_dug(after2.cell_at(rr, cc), before.cell_at(rr, cc)));
                if !spec_on_passage(a, b, dir1, m, rr, cc) {
                    assert(spec_kept_or_hidden(before.cell_at(rr, cc), level.cell_at(rr, cc)));
                }
            }
        }
        draw_again = rand_percent(4);
        draws += 1;
    }
    let ghost drawn = *level;
    level.rooms[room1].doors[dir1.to_index()].set_others(room2, &spot2);
    level.rooms[room2].doors[dir2.to_index()].set_others(room1, &spot1);
    proof {
        if spec_links_in_range(start.rooms@) {
            assert forall|k: int, d: int| 0 <= k < MAX_ROOM && 0 <= d < 4 implies ((#[trigger] level.rooms@[k].doors@[d]).oth_room matches Some(o) ==> o < MAX_ROOM) by {
                if k == room1 && d == spec_door_index(dir1) {
                } else if k == room2 && d == spec_door_index(dir2) {
                } else {
                    assert(level.rooms@[k].doors@[d].oth_room == drawn.rooms@[k].doors@[d].oth_room);
                    assert(drawn.rooms@[k].doors@[d].oth_room == start.rooms@[k].doors@[d].oth_room);
                }
            }
        }
    }
    assert(level.dungeon == drawn.dungeon);
    assert forall|rr: int, cc: int| in_dungeon(rr, cc) && !(rr == spot1.row && cc == spot1.col) && !(rr == spot2.row && cc == spot2.col)
        implies spec_cell_dug(start.cell_at(rr, cc), #[trigger] level.cell_at(rr, cc)) by {
        assert(level.cell_at(rr, cc) == drawn.cell_at(rr, cc));
        assert(after2.cell_at(rr, cc) == start.cell_at(rr, cc));
    }
    true
}

/// Every room slot holds a rectangle that fits the slot.
pub open spec fn spec_rooms_laid_out(level: Level) -> bool {
    forall|rn: usize| rn < MAX_ROOM ==> #[trigger] spec_fits_slot(level.rooms@[rn as int].to_bounds(), rn)
}

/// A rectangle that fits its slot lies inside the dungeon and leaves room
/// for its middle.
pub proof fn lemma_fits_slot_in_dungeon(room: Room, rn: usize)
    requires
        rn < MAX_ROOM,
        spec_fits_slot(room.to_bounds(), rn),
    ensures
        spec_room_in_dungeon(room),
        1 <= room.top_row && room.bottom_row <= DROWS - 2,
        room.top_row + 3 <= room.bottom_row,
        room.left_col + 6 <= room.right_col,
{
}

/// Two slots in one band of rows, or of columns, are different slots of
/// different bands the other way, and the rooms that fit them lie at least
/// two cells apart across the band.
proof fn lemma_slots_apart(level: Level, r1: usize, r2: usize)
    requires
        spec_rooms_laid_out(level),
        r1 < MAX_ROOM,
        r2 < MAX_ROOM,
        r1 != r2,
    ensures
        spec_same_row(r1, r2) ==> (r1 % 3 < r2 % 3 ==> level.rooms@[r1 as int].right_col + 2 <= level.rooms@[r2 as int].left_col),
        spec_same_row(r1, r2) ==> (r2 % 3 < r1 % 3 ==> level.rooms@[r2 as int].right_col + 2 <= level.rooms@[r1 as int].left_col),
        spec_same_row(r1, r2) ==> r1 % 3 != r2 % 3,
        spec_same_col(r1, r2) ==> (r1 / 3 < r2 / 3 ==> level.rooms@[r1 as int].bottom_row + 2 <= level.rooms@[r2 as int].top_row),
        spec_same_col(r1, r2) ==> (r2 / 3 < r1 / 3 ==> level.rooms@[r2 as int].bottom_row + 2 <= level.rooms@[r1 as int].top_row),
        spec_same_col(r1, r2) ==> r1 / 3 != r2 / 3,
{
    assert(spec_fits_slot(level.rooms@[r1 as int].to_bounds(), r1));
    assert(spec_fits_slot(level.rooms@[r2 as int].to_bounds(), r2));
}

/// The wall of room `from_rn` through which a passage to `to_rn` leaves,
/// judged from the rooms' left columns for slots in one band of rows and
/// from their top rows otherwise.
pub open spec fn spec_tunnel_dir(level: Level, from_rn: usize, to_rn: usize) -> DoorDirection {
    if spec_same_row(from_rn, to_rn) {
        if level.rooms@[from_rn as int].left_col < level.rooms@[to_rn as int].left_col {
            DoorDirection::Right
        } else {
            DoorDirection::Left
        }
    } else {
        if level.rooms@[from_rn as int].top_row < level.rooms@[to_rn as int].top_row {
            DoorDirection::Down
        } else {
            DoorDirection::Up
        }
    }
}

/// The wall of room `from_rn` through which a passage to `to_rn` leaves.
fn get_tunnel_dir(from_rn: usize, to_rn: usize, level: &Level) -> (r: DoorDirection)
    requires
        from_rn < MAX_ROOM,
        to_rn < MAX_ROOM,
    ensures
        r == spec_tunnel_dir(*level, from_rn, to_rn),
{
    if same_row(from_rn, to_rn) {
        if level.rooms[from_rn].left_col < level.rooms[to_rn].left_col {
            DoorDirection::Right
        } else {
            DoorDirection::Left
        }
    } else {
        if level.rooms[from_rn].top_row < level.rooms[to_rn].top_row {
            DoorDirection::Down
        } else {
            DoorDirection::Up
        }
    }
}

/// The first passage cell, row by row, inside the rectangle of room `rn`.
fn find_tunnel_in_room(rn: usize, level: &Level) -> (r: Option<DungeonSpot>)
    requires
        level.wf(),
        rn < MAX_ROOM,
        spec_room_in_dungeon(level.rooms@[rn as int]),
    ensures
        match r {
            Some(spot) => {
                &&& level.rooms@[rn as int].to_bounds().spec_contains(spot.row as int, spot.col as int)
                &&& level.cell_at(spot.row as int, spot.col as int).material is Tunnel
            },
            None => forall|rr: int, cc: int|
                level.rooms@[rn as int].to_bounds().spec_contains(rr, cc) ==> (#[trigger] level.cell_at(rr, cc)).material !is Tunnel,
        },
{
    let bounds = level.rooms[rn].to_wall_bounds();
    let mut row = bounds.top;
    while row <= bounds.bottom
        invariant
            level.wf(),
            bounds == level.rooms@[rn as int].to_bounds(),
            spec_room_in_dungeon(level.rooms@[rn as int]),
            bounds.top <= row <= bounds.bottom + 1,
            forall|rr: int, cc: int|
                bounds.spec_contains(rr, cc) && rr < row ==> (#[trigger] level.cell_at(rr, cc)).material !is Tunnel,
        decreases bounds.bottom + 1 - row,
    {
        let mut col = bounds.left;
        while col <= bounds.right
            invariant
                level.wf(),
                bounds == level.rooms@[rn as int].to_bounds(),
                spec_room_in_dungeon(level.rooms@[rn as int]),
                bounds.top <= row <= bounds.bottom,
                bounds.left <= col <= bounds.right + 1,
                forall|rr: int, cc: int|
                    bounds.spec_contains(rr, cc) && (rr < row || (rr == row && cc < col)) ==> (#[trigger] level.cell_at(rr, cc)).material !is Tunnel,
            decreases bounds.right + 1 - col,
        {
            if level.dungeon[row as usize].get(col as usize).is_any_tunnel() {
                return Some(DungeonSpot { row, col });
            }
            col += 1;
        }
        row += 1;
    }
    None
}

/// A door cell with nothing on it, found or hidden.
pub open spec fn spec_is_door_cell(c: DungeonCell) -> bool {
    c.material is Door && c.object is Nothing && !c.monster
}

/// The new cell is the old one dug into: kept, its passage hidden, fresh
/// passage, or a door.
pub open spec fn spec_cell_grown(before: DungeonCell, after: DungeonCell) -> bool {
    spec_cell_dug(before, after) || spec_is_door_cell(after)
}

/// The new slot type is the old one, or a dead end made of a slot that
/// held no room and no maze.
pub open spec fn spec_type_grown(before: RoomType, after: RoomType) -> bool {
    after == before || (after is DeadEnd && !(before is Room) && !(before is Maze))
}

/// The offsets to neighbouring slots are -1, 1, 3 and -3 in some order.
pub open spec fn spec_offsets_ok(level: Level) -> bool {
    level.target_room_offsets@.to_multiset() == seq![-1isize, 1isize, 3isize, -3isize].to_multiset()
}

/// `after` is `before` with more dug out of it: rectangles, links between
/// doors, traps and the level's magic are kept; slots only turn into dead
/// ends; cells only gain passage, doors, or hidden passage; the offsets are
/// shuffled at most; a recorded dead end names a slot.
pub open spec fn spec_level_grown(before: Level, after: Level) -> bool {
    &&& after.wf()
    &&& forall|k: int| 0 <= k < MAX_ROOM ==> (#[trigger] after.rooms@[k]).to_bounds() == before.rooms@[k].to_bounds()
    &&& forall|k: int| 0 <= k < MAX_ROOM ==> spec_type_grown(before.rooms@[k].room_type, (#[trigger] after.rooms@[k]).room_type)
    &&& forall|k: int, d: int| 0 <= k < MAX_ROOM && 0 <= d < 4 ==> (#[trigger] after.rooms@[k].doors@[d]).oth_room == before.rooms@[k].doors@[d].oth_room
    &&& forall|r: int, c: int| in_dungeon(r, c) ==> spec_cell_grown(before.cell_at(r, c), #[trigger] after.cell_at(r, c))
    &&& after.traps == before.traps
    &&& after.see_invisible == before.see_invisible
    &&& after.detect_monster == before.detect_monster
    &&& after.party_room == before.party_room
    &&& after.new_level_message == before.new_level_message
    &&& after.trap_door == before.trap_door
    &&& after.target_room_offsets@.to_multiset() == before.target_room_offsets@.to_multiset()
    &&& (after.recursive_deadend == before.recursive_deadend || (after.recursive_deadend matches Some(de) && de < MAX_ROOM
        && after.rooms@[de as int].room_type is DeadEnd))
}

/// Growing is a preorder.
proof fn lemma_grown_trans(a: Level, b: Level, c: Level)
    requires
        spec_level_grown(a, b),
        spec_level_grown(b, c),
    ensures
        spec_level_grown(a, c),
{
    assert forall|r: int, cc: int| in_dungeon(r, cc) implies spec_cell_grown(a.cell_at(r, cc), #[trigger] c.cell_at(r, cc)) by {
        assert(spec_cell_grown(a.cell_at(r, cc), b.cell_at(r, cc)));
        assert(spec_cell_grown(b.cell_at(r, cc), c.cell_at(r, cc)));
    }
    assert forall|k: int| 0 <= k < MAX_ROOM implies spec_type_grown(a.rooms@[k].room_type, (#[trigger] c.rooms@[k]).room_type) by {
        assert(spec_type_grown(a.rooms@[k].room_type, b.rooms@[k].room_type));
        assert(spec_type_grown(b.rooms@[k].room_type, c.rooms@[k].room_type));
    }
    assert forall|k: int, d: int| 0 <= k < MAX_ROOM && 0 <= d < 4 implies (#[trigger] c.rooms@[k].doors@[d]).oth_room == a.rooms@[k].doors@[d].oth_room by {
        assert(c.rooms@[k].doors@[d].oth_room == b.rooms@[k].doors@[d].oth_room);
    }
    assert forall|k: int| 0 <= k < MAX_ROOM implies (#[trigger] c.rooms@[k]).to_bounds() == a.rooms@[k].to_bounds() by {
        assert(c.rooms@[k].to_bounds() == b.rooms@[k].to_bounds());
    }
    if let Some(de) = b.recursive_deadend {
        if de < MAX_ROOM {
            assert(spec_type_grown(b.rooms@[de as int].room_type, c.rooms@[de as int].room_type));
        }
    }
}

/// Every level has grown from itself.
proof fn lemma_grown_refl(a: Level)
    requires
        a.wf(),
    ensures
        spec_level_grown(a, a),
{
}

/// A laid-out level stays laid out as it grows.
proof fn lemma_grown_laid_out(a: Level, b: Level)
    requires
        spec_level_grown(a, b),
        spec_rooms_laid_out(a),
    ensures
        spec_rooms_laid_out(b),
{
    assert forall|rn: usize| rn < MAX_ROOM implies #[trigger] spec_fits_slot(b.rooms@[rn as int].to_bounds(), rn) by {
        assert(b.rooms@[rn as int].to_bounds() == a.rooms@[rn as int].to_bounds());
        assert(spec_fits_slot(a.rooms@[rn as int].to_bounds(), rn));
    }
}

/// A passage between a spot of one room and a spot of another room in the
/// same band of rows or columns stays inside the dungeon.
proof fn lemma_passage_fits(level: Level, rn: usize, t: usize, start: DungeonSpot, end: DungeonSpot)
    requires
        spec_rooms_laid_out(level),
        rn < MAX_ROOM,
        t < MAX_ROOM,
        rn != t,
        spec_same_row(rn, t) || spec_same_col(rn, t),
        level.rooms@[rn as int].to_bounds().spec_contains(start.row as int, start.col as int),
        level.rooms@[t as int].to_bounds().spec_contains(end.row as int, end.col as int),
    ensures
        spec_passage_fits(start, end, spec_tunnel_dir(level, rn, t)),
{
    lemma_slots_apart(level, rn, t);
    assert(spec_fits_slot(level.rooms@[rn as int].to_bounds(), rn));
    assert(spec_fits_slot(level.rooms@[t as int].to_bounds(), t));
    lemma_fits_slot_in_dungeon(level.rooms@[rn as int], rn);
    lemma_fits_slot_in_dungeon(level.rooms@[t as int], t);
}

/// An offset of a level whose offsets are in order is one of -1, 1, 3, -3.
proof fn lemma_offset_values(level: Level, i: int)
    requires
        spec_offsets_ok(level),
        0 <= i < 4,
    ensures
        ({
            let o = level.target_room_offsets@[i];
            o == -1 || o == 1 || o == 3 || o == -3
        }),
{
    let s = level.target_room_offsets@;
    let base = seq![-1isize, 1isize, 3isize, -3isize];
    let o = s[i];
    assert(s.contains(o));
    vstd::seq_lib::to_multiset_contains(s, o);
    vstd::seq_lib::to_multiset_contains(base, o);
    let j = choose|j: int| 0 <= j < base.len() && base[j] == o;
    assert(base[0] == -1 && base[1] == 1 && base[2] == 3 && base[3] == -3);
}

/// Each of the offsets -1, 1, 3 and -3 stands among a level's offsets.
proof fn lemma_offsets_hold(level: Level, o: isize)
    requires
        spec_offsets_ok(level),
        o == -1 || o == 1 || o == 3 || o == -3,
    ensures
        exists|j: int| 0 <= j < 4 && #[trigger] level.target_room_offsets@[j] == o,
{
    let s = level.target_room_offsets@;
    let base = seq![-1isize, 1isize, 3isize, -3isize];
    assert(base[0] == -1 && base[1] == 1 && base[2] == 3 && base[3] == -3);
    assert(base.contains(o));
    vstd::seq_lib::to_multiset_contains(base, o);
    vstd::seq_lib::to_multiset_contains(s, o);
}

/// The slot at offset `o` from slot `rn`, counted round the nine slots.
pub open spec fn spec_offset_target(rn: usize, o: int) -> usize {
    ((rn + MAX_ROOM + o) % (MAX_ROOM as int)) as usize
}

/// Whether slot `rn` can be joined to slot `t`: they share a band, `t`
/// holds a room or a maze, and the wall of `t` that faces `rn` has no
/// linked door yet and a spot that can take one.
pub open spec fn spec_joinable(level: Level, rn: usize, t: usize) -> bool {
    let door_dir = spec_inverse(spec_tunnel_dir(level, rn, t));
    &&& spec_same_row(rn, t) || spec_same_col(rn, t)
    &&& spec_is_room_or_maze(level, t)
    &&& level.rooms@[t as int].doors@[spec_door_index(door_dir) as int].oth_room is None
    &&& spec_has_door_candidate(level, t, door_dir)
}

/// Whether slot `rn` can be joined to one of its neighbours at offset -1,
/// 1, 3 or -3.
pub open spec fn spec_some_joinable(level: Level, rn: usize) -> bool {
    exists|o: int| (o == -1 || o == 1 || o == 3 || o == -3) && #[trigger] spec_joinable(level, rn, spec_offset_target(rn, o))
}

/// Joining reads the rooms and the cells alone.
proof fn lemma_joinable_same(a: Level, b: Level, rn: usize, t: usize)
    requires
        a.rooms == b.rooms,
        a.dungeon == b.dungeon,
    ensures
        spec_joinable(a, rn, t) == spec_joinable(b, rn, t),
{
    assert(a.rooms@ == b.rooms@);
    assert(spec_tunnel_dir(a, rn, t) == spec_tunnel_dir(b, rn, t));
    let door_dir = spec_inverse(spec_tunnel_dir(a, rn, t));
    if spec_has_door_candidate(a, t, door_dir) {
        let k = choose|k: int| #[trigger] spec_door_candidate(a, t, door_dir, k);
        assert(spec_door_candidate(b, t, door_dir, k));
    }
    if spec_has_door_candidate(b, t, door_dir) {
        let k = choose|k: int| #[trigger] spec_door_candidate(b, t, door_dir, k);
        assert(spec_door_candidate(a, t, door_dir, k));
    }
}

/// The number of slots that hold nothing.
pub open spec fn spec_nothing_count(rooms: Seq<Room>) -> nat
    decreases rooms.len(),
{
    if rooms.len() == 0 {
        0
    } else {
        spec_nothing_count(rooms.drop_last()) + if rooms.last().room_type is Nothing { 1nat } else { 0nat }
    }
}

/// Slots that never turn into empty ones hold no more empty slots, and one
/// fewer where an empty slot was filled.
proof fn lemma_nothing_count_mono(a: Seq<Room>, b: Seq<Room>, k: int)
    requires
        a.len() == b.len(),
        forall|i: int| 0 <= i < a.len() && (#[trigger] b[i]).room_type is Nothing ==> a[i].room_type is Nothing,
    ensures
        spec_nothing_count(b) <= spec_nothing_count(a),
        0 <= k < a.len() && a[k].room_type is Nothing && !(b[k].room_type is Nothing) ==> spec_nothing_count(b) < spec_nothing_count(a),
    decreases a.len(),
{
    if a.len() > 0 {
        let a2 = a.drop_last();
        let b2 = b.drop_last();
        assert forall|i: int| 0 <= i < a2.len() && (#[trigger] b2[i]).room_type is Nothing implies a2[i].room_type is Nothing by {
            assert(b2[i] == b[i]);
            assert(a2[i] == a[i]);
        }
        lemma_nothing_count_mono(a2, b2, k);
        assert(b.last() == b[a.len() - 1]);
    }
}

/// Grows the dead end from slot `rn`, whose passage reaches `s_spot`: to
/// each empty slot in a band with it (in the order of the offsets) a
/// passage is dug from `s_spot` to the middle of that slot, the slot is
/// recorded as the last dead end, turned into a dead end with passage at
/// its middle, and grown the same way in turn.
fn recursive_deadend(rn: usize, s_spot: DungeonSpot, level_depth: usize, level: &mut Level)
    requires
        old(level).wf(),
        spec_rooms_laid_out(*old(level)),
        spec_offsets_ok(*old(level)),
        rn < MAX_ROOM,
        old(level).rooms@[rn as int].room_type is DeadEnd,
        old(level).rooms@[rn as int].to_bounds().spec_contains(s_spot.row as int, s_spot.col as int),
    ensures
        spec_level_grown(*old(level), *final(level)),
        final(level).target_room_offsets == old(level).target_room_offsets,
        forall|o: int| #[trigger] spec_band_neighbour(rn, o) && old(level).rooms@[rn + o].room_type is Nothing
            ==> final(level).rooms@[rn + o].room_type is DeadEnd,
        !spec_has_empty_neighbour(*old(level), rn) ==> *final(level) == *old(level),
    decreases spec_nothing_count(old(level).rooms@),
{
    proof {
        lemma_grown_refl(*level);
    }
    let mut i: usize = 0;
    while i < 4
        invariant
            i <= 4,
            rn < MAX_ROOM,
            spec_level_grown(*old(level), *level),
            spec_rooms_laid_out(*level),
            spec_offsets_ok(*level),
            level.target_room_offsets == old(level).target_room_offsets,
            level.rooms@[rn as int].to_bounds().spec_contains(s_spot.row as int, s_spot.col as int),
            spec_nothing_count(level.rooms@) <= spec_nothing_count(old(level).rooms@),
            forall|j: int| 0 <= j < i && spec_band_neighbour(rn, #[trigger] old(level).target_room_offsets@[j] as int)
                && old(level).rooms@[rn + old(level).target_room_offsets@[j]].room_type is Nothing
                ==> level.rooms@[rn + old(level).target_room_offsets@[j]].room_type is DeadEnd,
            !spec_has_empty_neighbour(*old(level), rn) ==> *level == *old(level),
        decreases 4 - i,
    {
        proof {
            lemma_offset_values(*level, i as int);
        }
        let ghost iter_start = *level;
        let ghost o: int = level.target_room_offsets@[i as int] as int;
        let de_i: isize = rn as isize + level.target_room_offsets[i];
        if de_i < 0 || de_i >= MAX_ROOM as isize {
            i += 1;
            continue;
        }
        let de: usize = de_i as usize;
        if !same_row(rn, de) && !same_col(rn, de) {
            i += 1;
            continue;
        }
        if level.rooms[de].room_type != RoomType::Nothing {
            proof {
                assert(spec_type_grown(old(level).rooms@[de as int].room_type, level.rooms@[de as int].room_type));
            }
            i += 1;
            continue;
        }
        let ghost before = *level;
        proof {
            if !spec_has_empty_neighbour(*old(level), rn) {
                assert(spec_band_neighbour(rn, o));
            }
            lemma_fits_slot_in_dungeon(level.rooms@[de as int], de);
            assert(spec_fits_slot(level.rooms@[de as int].to_bounds(), de));
        }
        let d_spot = level.rooms[de].center_spot();
        let tunnel_dir = get_tunnel_dir(rn, de, level);
        proof {
            lemma_passage_fits(*level, rn, de, s_spot, d_spot);
        }
        draw_simple_passage(s_spot, d_spot, tunnel_dir, level_depth, level);
        let ghost drawn = *level;
        level.recursive_deadend = Some(de);
        level.rooms[de].room_type = RoomType::DeadEnd;
        level.set_cell_material(d_spot.row as usize, d_spot.col as usize, CellMaterial::Tunnel(Visibility::Visible, TunnelFixture::Nothing));
        let ghost prepared = *level;
        proof {
            let (a, b) = spec_passage_ends(s_spot, d_spot, tunnel_dir);
            let m = choose|m: int| #[trigger] spec_passage_drawn(before, drawn, a, b, tunnel_dir, m);
            assert forall|r: int, c: int| in_dungeon(r, c) implies spec_cell_grown(before.cell_at(r, c), #[trigger] prepared.cell_at(r, c)) by {
                if r == d_spot.row && c == d_spot.col {
                } else {
                    assert(prepared.cell_at(r, c) == drawn.cell_at(r, c));
                    if !spec_on_passage(a, b, tunnel_dir, m, r, c) {
                        assert(spec_kept_or_hidden(before.cell_at(r, c), drawn.cell_at(r, c)));
                    }
                }
            }
            assert forall|k: int| 0 <= k < MAX_ROOM implies spec_type_grown(before.rooms@[k].room_type, (#[trigger] prepared.rooms@[k]).room_type) by {}
            assert(spec_level_grown(before, prepared));
            lemma_grown_trans(*old(level), before, prepared);
            lemma_grown_laid_out(before, prepared);
            lemma_nothing_count_mono(before.rooms@, prepared.rooms@, de as int);
            assert(prepared.rooms@[de as int].to_bounds().spec_contains(d_spot.row as int, d_spot.col as int));
        }
        recursive_deadend(de, d_spot, level_depth, level);
        proof {
            lemma_grown_trans(*old(level), prepared, *level);
            lemma_grown_laid_out(prepared, *level);
            assert forall|k: int| 0 <= k < MAX_ROOM && (#[trigger] level.rooms@[k]).room_type is Nothing implies prepared.rooms@[k].room_type is Nothing by {
                assert(spec_type_grown(prepared.rooms@[k].room_type, level.rooms@[k].room_type));
            }
            lemma_nothing_count_mono(prepared.rooms@, level.rooms@, 0);
            assert(level.rooms@[rn as int].to_bounds() == prepared.rooms@[rn as int].to_bounds());
            assert(spec_type_grown(prepared.rooms@[de as int].room_type, level.rooms@[de as int].room_type));
            assert forall|j: int| 0 <= j < i + 1 && spec_band_neighbour(rn, #[trigger] old(level).target_room_offsets@[j] as int)
                && old(level).rooms@[rn + old(level).target_room_offsets@[j]].room_type is Nothing
                implies level.rooms@[rn + old(level).target_room_offsets@[j]].room_type is DeadEnd by {
                let k = rn + old(level).target_room_offsets@[j];
                if j < i {
                    assert(spec_type_grown(iter_start.rooms@[k].room_type, prepared.rooms@[k].room_type));
                    assert(spec_type_grown(prepared.rooms@[k].room_type, level.rooms@[k].room_type));
                }
            }
        }
        i += 1;
    }
    proof {
        assert forall|o: int| #[trigger] spec_band_neighbour(rn, o) && old(level).rooms@[rn + o].room_type is Nothing
            implies level.rooms@[rn + o].room_type is DeadEnd by {
            lemma_offsets_hold(*old(level), o as isize);
        }
    }
}

/// Whether slot `rn` moved on by `o` is a slot in a band with it, `o` being
/// one of the offsets -1, 1, 3 and -3.
pub open spec fn spec_band_neighbour(rn: usize, o: int) -> bool {
    &&& o == -1 || o == 1 || o == 3 || o == -3
    &&& 0 <= rn + o < MAX_ROOM
    &&& spec_same_row(rn, (rn + o) as usize) || spec_same_col(rn, (rn + o) as usize)
}

/// Whether slot `rn` has an empty slot in a band with it at one of the
/// offsets.
pub open spec fn spec_has_empty_neighbour(level: Level, rn: usize) -> bool {
    exists|o: int| #[trigger] spec_band_neighbour(rn, o) && level.rooms@[rn + o].room_type is Nothing
}

/// Digs slot `rn` (a slot with no room or maze) into a dead end: the
/// offsets to its neighbours are shuffled, and in that order the first
/// neighbour in a band with it that holds a room or a maze, and whose
/// facing wall has no linked door yet, gets a door in that wall and a
/// passage to it.  The passage starts at the middle of `rn`, or with
/// `do_rec_de` at the first passage already in `rn` for the first
/// neighbour.  The slot becomes a dead end with passage where the passage
/// starts.  After the first of the first three neighbours reached, a coin
/// toss may go on to the next one; once one neighbour is joined this way
/// the search stops, after growing the dead end further (with
/// `do_rec_de`) where only one neighbour was joined.  A neighbour whose
/// facing wall has no spot left for a door is passed over.
#[verifier::spinoff_prover]
#[verifier::rlimit(50)]
pub fn fill_it(rn: usize, do_rec_de: bool, level_depth: usize, level: &mut Level)
    requires
        old(level).wf(),
        spec_rooms_laid_out(*old(level)),
        spec_offsets_ok(*old(level)),
        rn < MAX_ROOM,
        !spec_is_room_or_maze(*old(level), rn),
    ensures
        spec_level_grown(*old(level), *final(level)),
        spec_offsets_ok(*final(level)),
        spec_some_joinable(*old(level), rn) ==> final(level).rooms@[rn as int].room_type is DeadEnd,
        !spec_some_joinable(*old(level), rn) ==> *final(level) == (Level {
            target_room_offsets: final(level).target_room_offsets,
            ..*old(level)
        }),
{
    let mut did_this = false;
    shuffle_array(&mut level.target_room_offsets);
    let ghost shuffled = *level;
    assert(shuffled == (Level { target_room_offsets: shuffled.target_room_offsets, ..*old(level) }));
    proof {
        lemma_grown_refl(*old(level));
        assert(spec_level_grown(*old(level), shuffled));
        lemma_grown_laid_out(*old(level), shuffled);
    }
    let mut rooms_found: usize = 0;
    let mut i: usize = 0;
    while i < 4
        invariant_except_break
            rooms_found <= i,
        invariant
            i <= 4,
            rn < MAX_ROOM,
            spec_level_grown(*old(level), *level),
            spec_rooms_laid_out(*level),
            spec_offsets_ok(*level),
            !(level.rooms@[rn as int].room_type is Room),
            !(level.rooms@[rn as int].room_type is Maze),
            shuffled == (Level { target_room_offsets: shuffled.target_room_offsets, ..*old(level) }),
            spec_offsets_ok(shuffled),
            rooms_found == 0 ==> *level == shuffled,
            rooms_found > 0 ==> level.rooms@[rn as int].room_type is DeadEnd,
            rooms_found > 0 ==> spec_some_joinable(*old(level), rn),
            forall|j: int| 0 <= j < i && rooms_found == 0
                ==> !spec_joinable(*old(level), rn, #[trigger] spec_offset_target(rn, shuffled.target_room_offsets@[j] as int)),
        ensures
            rooms_found == 0 ==> i == 4,
        decreases 4 - i,
    {
        proof {
            lemma_offset_values(*level, i as int);
        }
        let ghost o: int = level.target_room_offsets@[i as int] as int;
        proof {
            if rooms_found == 0 {
                lemma_joinable_same(*old(level), *level, rn, spec_offset_target(rn, o));
            }
        }
        let target_rn = (((rn + MAX_ROOM) as isize + level.target_room_offsets[i]) as usize) % MAX_ROOM;
        assert(target_rn != rn);
        assert(target_rn == spec_offset_target(rn, o));
        let kinds = vec![RoomType::Room, RoomType::Maze];
        if !(same_row(rn, target_rn) || same_col(rn, target_rn)) || !level.rooms[target_rn].room_type.is_type(&kinds) {
            i += 1;
            continue;
        }
        let tunnel_dir = get_tunnel_dir(rn, target_rn, level);
        let door_dir = tunnel_dir.inverse();
        if level.rooms[target_rn].doors[door_dir.to_index()].oth_room.is_some() {
            i += 1;
            continue;
        }
        proof {
            assert(spec_fits_slot(level.rooms@[target_rn as int].to_bounds(), target_rn));
            assert(spec_fits_slot(level.rooms@[rn as int].to_bounds(), rn));
            lemma_fits_slot_in_dungeon(level.rooms@[target_rn as int], target_rn);
            lemma_fits_slot_in_dungeon(level.rooms@[rn as int], rn);
        }
        if !has_door_candidate(target_rn, door_dir, level) {
            i += 1;
            continue;
        }
        proof {
            if rooms_found == 0 {
                assert(spec_joinable(*level, rn, target_rn));
                assert(spec_joinable(*old(level), rn, spec_offset_target(rn, o)));
                assert(spec_some_joinable(*old(level), rn));
            }
        }
        let start_spot = if !do_rec_de || did_this {
            level.rooms[rn].center_spot()
        } else if let Some(spot) = find_tunnel_in_room(rn, level) {
            spot
        } else {
            level.rooms[rn].center_spot()
        };
        let ghost before = *level;
        let end_spot = put_door(target_rn, door_dir, level_depth, level);
        let ghost doored = *level;
        rooms_found += 1;
        proof {
            assert(level.rooms@[rn as int] == before.rooms@[rn as int]);
            assert(spec_tunnel_dir(*level, rn, target_rn) == tunnel_dir);
            lemma_passage_fits(*level, rn, target_rn, start_spot, end_spot);
        }
        draw_simple_passage(start_spot, end_spot, tunnel_dir, level_depth, level);
        let ghost drawn = *level;
        level.rooms[rn].room_type = RoomType::DeadEnd;
        level.set_cell_material(start_spot.row as usize, start_spot.col as usize, CellMaterial::Tunnel(Visibility::Visible, TunnelFixture::Nothing));
        proof {
            let (a, b) = spec_passage_ends(start_spot, end_spot, tunnel_dir);
            let m = choose|m: int| #[trigger] spec_passage_drawn(doored, drawn, a, b, tunnel_dir, m);
            assert forall|r: int, c: int| in_dungeon(r, c) implies spec_cell_grown(before.cell_at(r, c), #[trigger] level.cell_at(r, c)) by {
                if r == start_spot.row && c == start_spot.col {
                } else {
                    assert(level.cell_at(r, c) == drawn.cell_at(r, c));
                    if !spec_on_passage(a, b, tunnel_dir, m, r, c) {
                        assert(spec_kept_or_hidden(doored.cell_at(r, c), drawn.cell_at(r, c)));
                        if r == end_spot.row && c == end_spot.col {
                        } else {
                            assert(doored.cell_at(r, c) == before.cell_at(r, c));
                        }
                    }
                }
            }
            assert forall|k: int, d: int| 0 <= k < MAX_ROOM && 0 <= d < 4 implies (#[trigger] level.rooms@[k].doors@[d]).oth_room == before.rooms@[k].doors@[d].oth_room by {
                if k == target_rn && d == spec_door_index(door_dir) {
                } else if k == target_rn {
                }
            }
            assert forall|k: int| 0 <= k < MAX_ROOM implies (#[trigger] level.rooms@[k]).to_bounds() == before.rooms@[k].to_bounds() by {
                if k == target_rn {
                }
            }
            assert(level.wf());
            assert(level.traps == before.traps);
            assert(level.target_room_offsets@.to_multiset() == before.target_room_offsets@.to_multiset());
            assert(level.recursive_deadend == before.recursive_deadend);
            assert forall|k: int| 0 <= k < MAX_ROOM implies spec_type_grown(before.rooms@[k].room_type, (#[trigger] level.rooms@[k]).room_type) by {}
            assert(spec_level_grown(before, *level));
            lemma_grown_trans(*old(level), before, *level);
            lemma_grown_laid_out(before, *level);
            assert(level.rooms@[rn as int].to_bounds().spec_contains(start_spot.row as int, start_spot.col as int));
        }
        if (i < 3) && !did_this {
            did_this = true;
            if coin_toss() {
                i += 1;
                continue;
            }
        }
        if rooms_found < 2 && do_rec_de {
            let ghost deadend = *level;
            recursive_deadend(rn, start_spot, level_depth, level);
            proof {
                lemma_grown_trans(*old(level), deadend, *level);
            }
        }
        break;
    }
    proof {
        if rooms_found == 0 && spec_some_joinable(*old(level), rn) {
            let o = choose|o: int| (o == -1 || o == 1 || o == 3 || o == -3) && #[trigger] spec_joinable(*old(level), rn, spec_offset_target(rn, o));
            lemma_offsets_hold(shuffled, o as isize);
            let j = choose|j: int| 0 <= j < 4 && #[trigger] shuffled.target_room_offsets@[j] == o as isize;
            assert(spec_offset_target(rn, shuffled.target_room_offsets@[j] as int) == spec_offset_target(rn, o));
        }
    }
}

/// Mixes the slots of `rooms` by three times nine swaps of two different
/// places drawn at random; the slots stay the same, each as often.
pub fn mix_random_rooms(rooms: &mut [usize; 9])
    ensures
        final(rooms)@.to_multiset() == old(rooms)@.to_multiset(),
{
    let mut i: usize = 0;
    while i < 3 * MAX_ROOM
        invariant
            i <= 3 * MAX_ROOM,
            rooms@.len() == 9,
            rooms@.to_multiset() == old(rooms)@.to_multiset(),
        decreases 3 * MAX_ROOM - i,
    {
        let x = get_rand_usize(0, MAX_ROOM - 1);
        let draw = get_rand_usize(0, MAX_ROOM - 2);
        let y = if draw < x { draw } else { draw + 1 };
        let ghost before = rooms@;
        let a = rooms[x];
        let b = rooms[y];
        rooms[x] = b;
        rooms[y] = a;
        proof {
            assert(rooms@ == before.update(x as int, b).update(y as int, a));
            lemma_swap_multiset(before, x as int, y as int);
        }
        i += 1;
    }
}

/// Swapping two places keeps what a sequence holds.
proof fn lemma_swap_multiset(s: Seq<usize>, x: int, y: int)
    requires
        0 <= x < s.len(),
        0 <= y < s.len(),
    ensures
        s.update(x, s[y]).update(y, s[x]).to_multiset() == s.to_multiset(),
{
    let t = s.update(x, s[y]);
    vstd::seq_lib::to_multiset_update(s, x, s[y]);
    vstd::seq_lib::to_multiset_update(t, y, s[x]);
    assert(t[y] == s[y]);
    broadcast use vstd::multiset::group_multiset_axioms;
    vstd::seq_lib::to_multiset_contains(s, s[x]);
    assert(s.contains(s[x]));
    let m = s.to_multiset();
    assert forall|v: usize| #[trigger] m.insert(s[y]).remove(s[x]).insert(s[x]).remove(s[y]).count(v) == m.count(v) by {}
    assert(m.insert(s[y]).remove(s[x]).insert(s[x]).remove(s[y]) =~= m);
}

/// The room slots in an order left to chance: each slot once.
pub fn shuffled_rns() -> (r: [usize; 9])
    ensures
        r@.to_multiset() == seq![3usize, 7usize, 5usize, 2usize, 0usize, 6usize, 1usize, 4usize, 8usize].to_multiset(),
        forall|i: int| 0 <= i < MAX_ROOM ==> #[trigger] r@[i] < MAX_ROOM,
{
    let mut room_indices: [usize; 9] = [3, 7, 5, 2, 0, 6, 1, 4, 8];
    let ghost start = room_indices@;
    assert(start == seq![3usize, 7usize, 5usize, 2usize, 0usize, 6usize, 1usize, 4usize, 8usize]);
    shuffle_array(&mut room_indices);
    proof {
        assert forall|i: int| 0 <= i < MAX_ROOM implies #[trigger] room_indices@[i] < MAX_ROOM by {
            let x = room_indices@[i];
            assert(room_indices@.contains(x));
            vstd::seq_lib::to_multiset_contains(room_indices@, x);
            vstd::seq_lib::to_multiset_contains(start, x);
        }
    }
    room_indices
}

/// Fills out the slots of a level whose rooms are built and joined: in an
/// order left to chance, each slot that holds nothing, and each crossing
/// on a coin toss, is dug into a dead end (with dead ends grown from it);
/// then the last dead end grown is dug once more without growing.
pub fn fill_out_level(level: &mut Level, level_depth: usize)
    requires
        old(level).wf(),
        spec_rooms_laid_out(*old(level)),
        spec_offsets_ok(*old(level)),
    ensures
        spec_level_grown(Level { recursive_deadend: None, ..*old(level) }, *final(level)),
        spec_offsets_ok(*final(level)),
{
    let shuffled = shuffled_rns();
    level.recursive_deadend = None;
    let ghost start = *level;
    proof {
        lemma_grown_refl(start);
    }
    let mut i: usize = 0;
    while i < MAX_ROOM
        invariant
            i <= MAX_ROOM,
            forall|j: int| 0 <= j < MAX_ROOM ==> #[trigger] shuffled@[j] < MAX_ROOM,
            spec_level_grown(start, *level),
            spec_rooms_laid_out(*level),
            spec_offsets_ok(*level),
            start.recursive_deadend is None,
        decreases MAX_ROOM - i,
    {
        let rn = shuffled[i];
        let room_type = level.rooms[rn].room_type;
        if room_type.is_nothing() || (room_type.is_cross() && coin_toss()) {
            let ghost before = *level;
            fill_it(rn, true, level_depth, level);
            proof {
                lemma_grown_trans(start, before, *level);
                lemma_grown_laid_out(before, *level);
            }
        }
        i += 1;
    }
    if let Some(deadend_rn) = level.recursive_deadend {
        let ghost before = *level;
        fill_it(deadend_rn, false, level_depth, level);
        proof {
            lemma_grown_trans(start, before, *level);
        }
    }
}

/// The number of cells among the first `n` of a row that are not passage.
pub open spec fn spec_row_open(cells: Seq<DungeonCell>, n: int) -> nat
    decreases n,
{
    if n <= 0 {
        0
    } else {
        spec_row_open(cells, n - 1) + if cells[n - 1].material is Tunnel { 0nat } else { 1nat }
    }
}

/// The number of cells in the first `n` rows of the dungeon that are not
/// passage.
pub open spec fn spec_open_count(dungeon: Seq<DungeonRow>, n: int) -> nat
    decreases n,
{
    if n <= 0 {
        0
    } else {
        spec_open_count(dungeon, n - 1) + spec_row_open(dungeon[n - 1]@, DCOLS as int)
    }
}

/// A row where passage only spreads has no more cells that are not
/// passage, and fewer where a cell became passage.
proof fn lemma_row_open_mono(a: Seq<DungeonCell>, b: Seq<DungeonCell>, n: int, c0: int)
    requires
        0 <= n,
        forall|c: int| 0 <= c < n && !((#[trigger] b[c]).material is Tunnel) ==> !(a[c].material is Tunnel),
    ensures
        spec_row_open(b, n) <= spec_row_open(a, n),
        0 <= c0 < n && !(a[c0].material is Tunnel) && b[c0].material is Tunnel ==> spec_row_open(b, n) < spec_row_open(a, n),
    decreases n,
{
    if n > 0 {
        lemma_row_open_mono(a, b, n - 1, c0);
    }
}

/// A dungeon where passage only spreads has no more cells that are not
/// passage, and fewer where a cell became passage.
proof fn lemma_open_count_mono(a: Seq<DungeonRow>, b: Seq<DungeonRow>, n: int, r0: int, c0: int)
    requires
        0 <= n <= a.len(),
        a.len() == b.len(),
        forall|r: int, c: int| 0 <= r < n && 0 <= c < DCOLS && !((#[trigger] b[r]@[c]).material is Tunnel) ==> !(a[r]@[c].material is Tunnel),
    ensures
        spec_open_count(b, n) <= spec_open_count(a, n),
        0 <= r0 < n && 0 <= c0 < DCOLS && !(a[r0]@[c0].material is Tunnel) && b[r0]@[c0].material is Tunnel
            ==> spec_open_count(b, n) < spec_open_count(a, n),
    decreases n,
{
    if n > 0 {
        lemma_open_count_mono(a, b, n - 1, r0, c0);
        let r = n - 1;
        assert forall|c: int| 0 <= c < DCOLS && !((#[trigger] b[r]@[c]).material is Tunnel) implies !(a[r]@[c].material is Tunnel) by {}
        lemma_row_open_mono(a[r]@, b[r]@, DCOLS as int, c0);
        if r0 == r {
            lemma_row_open_mono(a[r]@, b[r]@, DCOLS as int, c0);
        }
    }
}

/// Whether the cell at `row`, `col` is not passage; a spot outside the
/// dungeon counts as rock.
fn is_rock_or_wall(row: i64, col: i64, level: &Level) -> (r: bool)
    requires
        level.wf(),
    ensures
        r == (!in_dungeon(row as int, col as int) || !(level.cell_at(row as int, col as int).material is Tunnel)),
{
    if row < 0 || row >= DROWS as i64 || col < 0 || col >= DCOLS as i64 {
        true
    } else {
        level.dungeon[row as usize].get(col as usize).is_not_tunnel()
    }
}

/// Whether a cell is not passage, a spot outside the dungeon counting as
/// rock.
pub open spec fn spec_is_rock(level: Level, row: int, col: int) -> bool {
    !in_dungeon(row, col) || !(level.cell_at(row, col).material is Tunnel)
}

/// The spot one step from `spot` by `delta_row`, `delta_col`, where a maze
/// can grow: inside `bounds`, not passage, with no passage beside it across
/// the step or at the spot one step further, which must lie on the screen.
pub open spec fn spec_maze_step_ok(delta_row: i64, delta_col: i64, spot: DungeonSpot, bounds: RoomBounds, level: Level) -> bool {
    let nr = spot.row + delta_row;
    let nc = spot.col + delta_col;
    let (ar, ac, br, bc) = if delta_row != 0 { (nr, nc - 1, nr, nc + 1) } else { (nr - 1, nc, nr + 1, nc) };
    &&& !spec_is_off_screen((spot.row + 2 * delta_row) as i64, (spot.col + 2 * delta_col) as i64)
    &&& bounds.spec_contains(nr, nc)
    &&& spec_is_rock(level, nr, nc)
    &&& spec_is_rock(level, ar, ac)
    &&& spec_is_rock(level, br, bc)
    &&& spec_is_rock(level, spot.row + 2 * delta_row, spot.col + 2 * delta_col)
}

/// The spot one step from `spot` by `delta_row`, `delta_col`, if a maze can
/// grow there.
fn check_spot_for_maze(delta_row: i64, delta_col: i64, spot: DungeonSpot, bounds: &RoomBounds, level: &Level) -> (r: Option<DungeonSpot>)
    requires
        level.wf(),
        -1 <= delta_row <= 1,
        -1 <= delta_col <= 1,
        in_dungeon(spot.row as int, spot.col as int),
    ensures
        r == (if spec_maze_step_ok(delta_row, delta_col, spot, *bounds, *level) {
            Some(DungeonSpot { row: (spot.row + delta_row) as i64, col: (spot.col + delta_col) as i64 })
        } else {
            None
        }),
{
    let new = DungeonSpot { row: spot.row + delta_row, col: spot.col + delta_col };
    let new_new = DungeonSpot { row: spot.row + delta_row * 2, col: spot.col + delta_col * 2 };
    let (new_a, new_b) = if delta_row != 0 {
        (DungeonSpot { row: new.row, col: new.col - 1 }, DungeonSpot { row: new.row, col: new.col + 1 })
    } else {
        (DungeonSpot { row: new.row - 1, col: new.col }, DungeonSpot { row: new.row + 1, col: new.col })
    };
    if !is_off_screen(new_new.row, new_new.col)
        && (bounds.top <= new.row && new.row <= bounds.bottom && bounds.left <= new.col && new.col <= bounds.right)
        && is_rock_or_wall(new.row, new.col, level)
        && is_rock_or_wall(new_a.row, new_a.col, level)
        && is_rock_or_wall(new_b.row, new_b.col, level)
        && is_rock_or_wall(new_new.row, new_new.col, level) {
        Some(new)
    } else {
        None
    }
}

/// `after` is `before` with passage dug only inside `bounds`.
pub open spec fn spec_dug_inside(before: Level, after: Level, bounds: RoomBounds) -> bool {
    &&& after.wf()
    &&& after.same_but_dungeon(&before)
    &&& forall|r: int, c: int|
        in_dungeon(r, c) ==> (#[trigger] after.cell_at(r, c) == before.cell_at(r, c) || (after.cell_at(r, c)
            == spec_tunnel_cell() && bounds.spec_contains(r, c)))
}

/// Whether a maze can grow from `spot` one step in direction `d`.
pub open spec fn spec_maze_step_ok_dir(d: DoorDirection, spot: DungeonSpot, bounds: RoomBounds, level: Level) -> bool {
    spec_maze_step_ok(spec_delta(d).0, spec_delta(d).1, spot, bounds, level)
}

/// Digging inside `bounds` keeps all passage.
proof fn lemma_dug_keeps_tunnel(before: Level, after: Level, bounds: RoomBounds)
    requires
        spec_dug_inside(before, after, bounds),
    ensures
        forall|r: int, c: int| in_dungeon(r, c) && (#[trigger] before.cell_at(r, c)).material is Tunnel
            ==> after.cell_at(r, c).material is Tunnel,
{
    assert forall|r: int, c: int| in_dungeon(r, c) && (#[trigger] before.cell_at(r, c)).material is Tunnel
        implies after.cell_at(r, c).material is Tunnel by {
        assert(after.cell_at(r, c) == before.cell_at(r, c) || after.cell_at(r, c) == spec_tunnel_cell());
    }
}

/// A step where a maze cannot grow stays so once more passage is dug.
proof fn lemma_maze_step_blocked(before: Level, after: Level, d: DoorDirection, spot: DungeonSpot, bounds: RoomBounds)
    requires
        forall|r: int, c: int| in_dungeon(r, c) && (#[trigger] before.cell_at(r, c)).material is Tunnel
            ==> after.cell_at(r, c).material is Tunnel,
        !spec_maze_step_ok_dir(d, spot, bounds, before),
    ensures
        !spec_maze_step_ok_dir(d, spot, bounds, after),
{
}

/// Each of the four directions stands among `dirs` when they hold the
/// four once each.
proof fn lemma_dirs_hold(dirs: Seq<DoorDirection>, d: DoorDirection)
    requires
        dirs.to_multiset() == seq![DoorDirection::Up, DoorDirection::Down, DoorDirection::Left, DoorDirection::Right].to_multiset(),
    ensures
        exists|j: int| 0 <= j < dirs.len() && #[trigger] dirs[j] == d,
{
    let base = seq![DoorDirection::Up, DoorDirection::Down, DoorDirection::Left, DoorDirection::Right];
    assert(base[0] == DoorDirection::Up && base[1] == DoorDirection::Down && base[2] == DoorDirection::Left
        && base[3] == DoorDirection::Right);
    assert(base.contains(d));
    vstd::seq_lib::to_multiset_contains(base, d);
    vstd::seq_lib::to_multiset_contains(dirs, d);
}

/// Grows a maze from `spot`, already passage: in an order shuffled a third
/// of the time, each step to a spot where a maze can grow makes that spot
/// passage and grows the maze from there.  In the end the maze can grow
/// from `spot` in no direction.
fn grow_maze(spot: DungeonSpot, bounds: &RoomBounds, level: &mut Level)
    requires
        old(level).wf(),
        in_dungeon(spot.row as int, spot.col as int),
        bounds.spec_contains(spot.row as int, spot.col as int),
        0 <= bounds.top && bounds.bottom < DROWS && 0 <= bounds.left && bounds.right < DCOLS,
    ensures
        spec_dug_inside(*old(level), *final(level), *bounds),
        forall|d: DoorDirection| !#[trigger] spec_maze_step_ok_dir(d, spot, *bounds, *final(level)),
    decreases spec_open_count(old(level).dungeon@, DROWS as int),
{
    let mut dirs: [DoorDirection; 4] = [DoorDirection::Up, DoorDirection::Down, DoorDirection::Left, DoorDirection::Right];
    let ghost base = dirs@;
    assert(base == seq![DoorDirection::Up, DoorDirection::Down, DoorDirection::Left, DoorDirection::Right]);
    if rand_percent(33) {
        shuffle_array(&mut dirs);
    }
    let mut i: usize = 0;
    while i < 4
        invariant
            i <= 4,
            in_dungeon(spot.row as int, spot.col as int),
            0 <= bounds.top && bounds.bottom < DROWS && 0 <= bounds.left && bounds.right < DCOLS,
            spec_dug_inside(*old(level), *level, *bounds),
            spec_open_count(level.dungeon@, DROWS as int) <= spec_open_count(old(level).dungeon@, DROWS as int),
            dirs@.len() == 4,
            dirs@.to_multiset() == base.to_multiset(),
            forall|j: int| 0 <= j < i ==> !#[trigger] spec_maze_step_ok_dir(dirs@[j], spot, *bounds, *level),
        decreases 4 - i,
    {
        let ghost iter_start = *level;
        let (delta_row, delta_col) = dirs[i].as_delta_row_col();
        if let Some(new_spot) = check_spot_for_maze(delta_row, delta_col, spot, bounds, level) {
            let ghost before = *level;
            level.set_cell_material(new_spot.row as usize, new_spot.col as usize, CellMaterial::Tunnel(Visibility::Visible, TunnelFixture::Nothing));
            proof {
                assert forall|r: int, c: int| 0 <= r < DROWS && 0 <= c < DCOLS && !((#[trigger] level.dungeon@[r]@[c]).material is Tunnel) implies !(before.dungeon@[r]@[c].material is Tunnel) by {
                    assert(level.cell_at(r, c) == level.dungeon@[r]@[c]);
                    if !(r == new_spot.row && c == new_spot.col) {
                        assert(level.cell_at(r, c) == before.cell_at(r, c));
                    }
                }
                assert(before.cell_at(new_spot.row as int, new_spot.col as int) == before.dungeon@[new_spot.row as int]@[new_spot.col as int]);
                lemma_open_count_mono(before.dungeon@, level.dungeon@, DROWS as int, new_spot.row as int, new_spot.col as int);
                assert forall|r: int, c: int| in_dungeon(r, c) implies (#[trigger] level.cell_at(r, c) == old(level).cell_at(r, c) || (level.cell_at(r, c)
                    == spec_tunnel_cell() && bounds.spec_contains(r, c))) by {
                    if !(r == new_spot.row && c == new_spot.col) {
                        assert(level.cell_at(r, c) == before.cell_at(r, c));
                    }
                }
            }
            let ghost prepared = *level;
            grow_maze(new_spot, bounds, level);
            proof {
                assert forall|r: int, c: int| in_dungeon(r, c) implies (#[trigger] level.cell_at(r, c) == old(level).cell_at(r, c) || (level.cell_at(r, c)
                    == spec_tunnel_cell() && bounds.spec_contains(r, c))) by {
                    assert(level.cell_at(r, c) == prepared.cell_at(r, c) || (level.cell_at(r, c) == spec_tunnel_cell() && bounds.spec_contains(r, c)));
                }
                assert forall|r: int, c: int| 0 <= r < DROWS && 0 <= c < DCOLS && !((#[trigger] level.dungeon@[r]@[c]).material is Tunnel) implies !(prepared.dungeon@[r]@[c].material is Tunnel) by {
                    assert(level.cell_at(r, c) == level.dungeon@[r]@[c]);
                    assert(prepared.cell_at(r, c) == prepared.dungeon@[r]@[c]);
                }
                lemma_open_count_mono(prepared.dungeon@, level.dungeon@, DROWS as int, 0, 0);
                assert(prepared.cell_at(new_spot.row as int, new_spot.col as int).material is Tunnel);
                assert(!spec_maze_step_ok_dir(dirs@[i as int], spot, *bounds, prepared));
                lemma_dug_keeps_tunnel(prepared, *level, *bounds);
                lemma_maze_step_blocked(prepared, *level, dirs@[i as int], spot, *bounds);
                assert forall|r: int, c: int| in_dungeon(r, c) && (#[trigger] iter_start.cell_at(r, c)).material is Tunnel
                    implies level.cell_at(r, c).material is Tunnel by {
                    assert(prepared.cell_at(r, c).material is Tunnel);
                }
                assert forall|j: int| 0 <= j < i implies !#[trigger] spec_maze_step_ok_dir(dirs@[j], spot, *bounds, *level) by {
                    lemma_maze_step_blocked(iter_start, *level, dirs@[j], spot, *bounds);
                }
            }
        }
        i += 1;
    }
    proof {
        assert forall|d: DoorDirection| !#[trigger] spec_maze_step_ok_dir(d, spot, *bounds, *level) by {
            lemma_dirs_hold(dirs@, d);
        }
    }
}

/// Digs a maze inside `bounds` from `spot`: the spot becomes passage and the
/// maze grows from it.
fn make_maze(spot: DungeonSpot, bounds: &RoomBounds, level: &mut Level)
    requires
        old(level).wf(),
        bounds.spec_contains(spot.row as int, spot.col as int),
        0 <= bounds.top && bounds.bottom < DROWS && 0 <= bounds.left && bounds.right < DCOLS,
    ensures
        spec_dug_inside(*old(level), *final(level), *bounds),
        final(level).cell_at(spot.row as int, spot.col as int) == spec_tunnel_cell(),
{
    level.set_cell_material(spot.row as usize, spot.col as usize, CellMaterial::Tunnel(Visibility::Visible, TunnelFixture::Nothing));
    let ghost started = *level;
    grow_maze(spot, bounds, level);
    assert forall|r: int, c: int| in_dungeon(r, c) implies (#[trigger] level.cell_at(r, c) == old(level).cell_at(r, c) || (level.cell_at(r, c)
        == spec_tunnel_cell() && bounds.spec_contains(r, c))) by {
        if !(r == spot.row && c == spot.col) {
            assert(started.cell_at(r, c) == old(level).cell_at(r, c));
        }
    }
}

/// Whether `r`, `c` lies in a slot that held nothing in `before` and holds
/// a maze in `after`.
pub open spec fn spec_in_new_maze(before: Level, after: Level, r: int, c: int) -> bool {
    exists|k: int|
        0 <= k < MAX_ROOM && (#[trigger] after.rooms@[k]).room_type is Maze && before.rooms@[k].room_type is Nothing
            && after.rooms@[k].to_bounds().spec_contains(r, c)
}

/// `after` is `before` with some empty slots turned into mazes: every
/// other slot keeps its type, rectangles and doors are kept, and cells
/// change only inside a new maze's rectangle, where they only gain passage
/// or have passage hidden.
pub open spec fn spec_mazes_added(before: Level, after: Level) -> bool {
    &&& after.wf()
    &&& forall|k: int| 0 <= k < MAX_ROOM ==> (#[trigger] after.rooms@[k]).to_bounds() == before.rooms@[k].to_bounds()
    &&& forall|k: int| 0 <= k < MAX_ROOM ==> (#[trigger] after.rooms@[k]).doors == before.rooms@[k].doors
    &&& forall|k: int| 0 <= k < MAX_ROOM ==> ((#[trigger] after.rooms@[k]).room_type == before.rooms@[k].room_type
        || (before.rooms@[k].room_type is Nothing && after.rooms@[k].room_type is Maze))
    &&& forall|r: int, c: int|
        in_dungeon(r, c) ==> (#[trigger] after.cell_at(r, c) == before.cell_at(r, c) || (spec_cell_dug(before.cell_at(r, c), after.cell_at(r, c))
            && spec_in_new_maze(before, after, r, c)))
    &&& after.traps == before.traps
    &&& after.target_room_offsets == before.target_room_offsets
    &&& after.recursive_deadend == before.recursive_deadend
    &&& after.see_invisible == before.see_invisible
    &&& after.detect_monster == before.detect_monster
    &&& after.party_room == before.party_room
    &&& after.new_level_message == before.new_level_message
    &&& after.trap_door == before.trap_door
}

/// From depth two on, turns empty slots into mazes: starting at a slot
/// drawn at random and going round all nine, each empty slot becomes a
/// maze with a chance of five fourths of the depth in percent (plus the
/// depth below fifteen levels down); its maze is dug from a spot drawn on
/// its floor, and up to two stretches of it are hidden.
pub fn add_mazes(level_depth: usize, level: &mut Level)
    requires
        old(level).wf(),
        spec_rooms_laid_out(*old(level)),
        level_depth <= usize::MAX / 5,
    ensures
        spec_mazes_added(*old(level), *final(level)),
        level_depth <= 1 ==> *final(level) == *old(level),
        level_depth > 1 && spec_maze_percent(level_depth as int) >= 100 ==> forall|k: int| 0 <= k < MAX_ROOM
            && old(level).rooms@[k].room_type is Nothing ==> (#[trigger] final(level).rooms@[k]).room_type is Maze,
{
    if level_depth > 1 {
        let random_start = get_rand_usize(0, MAX_ROOM - 1);
        let maze_percent = (level_depth * 5) / 4 + if level_depth > 15 { level_depth } else { 0 };
        assert(maze_percent == spec_maze_percent(level_depth as int));
        let chance: i64 = if maze_percent > 100 { 100 } else { maze_percent as i64 };
        let ghost sure = spec_maze_percent(level_depth as int) >= 100;
        let mut i: usize = 0;
        while i < MAX_ROOM
            invariant
                i <= MAX_ROOM,
                random_start < MAX_ROOM,
                spec_mazes_added(*old(level), *level),
                spec_rooms_laid_out(*level),
                sure == (spec_maze_percent(level_depth as int) >= 100),
                sure ==> chance >= 100,
                sure ==> forall|k: int| 0 <= k < MAX_ROOM && (k + MAX_ROOM - random_start) % (MAX_ROOM as int) < i
                    && old(level).rooms@[k].room_type is Nothing ==> (#[trigger] level.rooms@[k]).room_type is Maze,
            decreases MAX_ROOM - i,
        {
            let ghost iter_start = *level;
            let rn = (random_start + i) % MAX_ROOM;
            if level.rooms[rn].room_type.is_nothing() {
                if rand_percent(chance) {
                    let ghost before = *level;
                    level.rooms[rn].room_type = RoomType::Maze;
                    proof {
                        assert(spec_fits_slot(level.rooms@[rn as int].to_bounds(), rn));
                        lemma_fits_slot_in_dungeon(level.rooms@[rn as int], rn);
                    }
                    let spot_in_room = level.rooms[rn].to_floor_bounds().to_random_spot();
                    let room_bounds = level.rooms[rn].to_wall_bounds();
                    let ghost typed = *level;
                    make_maze(spot_in_room, &room_bounds, level);
                    let ghost mazed = *level;
                    let n = get_rand(0, 2);
                    hide_boxed_passage(room_bounds.top, room_bounds.left, room_bounds.bottom, room_bounds.right, n, level_depth, level);
                    proof {
                        assert(level.rooms == typed.rooms);
                        assert(old(level).rooms@[rn as int].room_type is Nothing) by {
                            assert(spec_mazes_added(*old(level), before));
                        }
                        assert forall|r: int, c: int| in_dungeon(r, c) implies (#[trigger] level.cell_at(r, c) == old(level).cell_at(r, c) || (spec_cell_dug(old(level).cell_at(r, c), level.cell_at(r, c))
                            && spec_in_new_maze(*old(level), *level, r, c))) by {
                            assert(spec_kept_or_hidden(mazed.cell_at(r, c), level.cell_at(r, c)));
                            if room_bounds.spec_contains(r, c) {
                                assert(level.rooms@[rn as int].room_type is Maze);
                                assert(spec_in_new_maze(*old(level), *level, r, c));
                                if mazed.cell_at(r, c) == before.cell_at(r, c) {
                                    if before.cell_at(r, c) != old(level).cell_at(r, c) {
                                        assert(spec_cell_dug(old(level).cell_at(r, c), before.cell_at(r, c)));
                                    }
                                }
                            } else {
                                assert(level.cell_at(r, c) == mazed.cell_at(r, c));
                                assert(mazed.cell_at(r, c) == before.cell_at(r, c));
                                if before.cell_at(r, c) != old(level).cell_at(r, c) {
                                    let k = choose|k: int| 0 <= k < MAX_ROOM && (#[trigger] before.rooms@[k]).room_type is Maze && old(level).rooms@[k].room_type is Nothing
                                        && before.rooms@[k].to_bounds().spec_contains(r, c);
                                    assert(level.rooms@[k].room_type is Maze);
                                    assert(spec_in_new_maze(*old(level), *level, r, c));
                                }
                            }
                        }
                        assert(spec_mazes_added(*old(level), *level));
                    }
                }
            }
            proof {
                if sure {
                    assert forall|k: int| 0 <= k < MAX_ROOM && (k + MAX_ROOM - random_start) % (MAX_ROOM as int) < i + 1
                        && old(level).rooms@[k].room_type is Nothing implies (#[trigger] level.rooms@[k]).room_type is Maze by {
                        lemma_round_offset(random_start as int, i as int, k);
                        if k != rn {
                            assert(level.rooms@[k].room_type == iter_start.rooms@[k].room_type);
                        }
                    }
                }
            }
            i += 1;
        }
        proof {
            if sure {
                assert forall|k: int| 0 <= k < MAX_ROOM && old(level).rooms@[k].room_type is Nothing
                    implies (#[trigger] level.rooms@[k]).room_type is Maze by {
                    lemma_round_offset(random_start as int, 0, k);
                }
            }
        }
    }
}

/// The chance in percent that an empty slot becomes a maze at depth
/// `level_depth`: five fourths of the depth, plus the depth below fifteen
/// levels down.
pub open spec fn spec_maze_percent(level_depth: int) -> int {
    level_depth * 5 / 4 + if level_depth > 15 { level_depth } else { 0 }
}

/// Going round the nine slots from `start`, slot `k` comes `i`-th exactly
/// when it is `start` moved on by `i`.
proof fn lemma_round_offset(start: int, i: int, k: int)
    requires
        0 <= start < MAX_ROOM,
        0 <= i < MAX_ROOM,
        0 <= k < MAX_ROOM,
    ensures
        ((k + MAX_ROOM - start) % (MAX_ROOM as int) == i) <==> k == (start + i) % (MAX_ROOM as int),
        0 <= (k + MAX_ROOM - start) % (MAX_ROOM as int) < MAX_ROOM,
{
}

/// Whether one of the first `d` doors of slot `j` leads to slot `k`.
pub open spec fn spec_linked_upto(rooms: Seq<Room>, j: int, d: int, k: int) -> bool
    decreases d,
{
    if d <= 0 {
        false
    } else {
        spec_linked_upto(rooms, j, d - 1, k) || rooms[j].doors@[d - 1].oth_room == Some(k as usize)
    }
}

/// Whether one of the first `j` slots is reached from `start` in `n` steps
/// and has a door that leads to slot `k`.
pub open spec fn spec_reached_via(rooms: Seq<Room>, start: int, n: nat, j: int, k: int) -> bool
    decreases n, j,
{
    if j <= 0 {
        false
    } else {
        spec_reached_via(rooms, start, n, j - 1, k) || (spec_reach(rooms, start, n, j - 1)
            && spec_linked_upto(rooms, j - 1, 4, k))
    }
}

/// Whether slot `k` is reached from slot `start` by following at most `n`
/// doors to the slots they lead to.
pub open spec fn spec_reach(rooms: Seq<Room>, start: int, n: nat, k: int) -> bool
    decreases n, 0int,
{
    if n == 0 {
        k == start
    } else {
        spec_reach(rooms, start, (n - 1) as nat, k) || spec_reached_via(rooms, start, (n - 1) as nat, MAX_ROOM as int, k)
    }
}

/// Whether slot `k` holds a room or a maze.
pub open spec fn spec_slot_is_room_or_maze(rooms: Seq<Room>, k: int) -> bool {
    rooms[k].room_type is Room || rooms[k].room_type is Maze
}

/// The last of the first `n` slots that holds a room or a maze, or -1.
pub open spec fn spec_last_room_or_maze(rooms: Seq<Room>, n: int) -> int
    decreases n,
{
    if n <= 0 {
        -1
    } else if spec_slot_is_room_or_maze(rooms, n - 1) {
        n - 1
    } else {
        spec_last_room_or_maze(rooms, n - 1)
    }
}

/// Every door that leads somewhere leads to a slot of the level.
pub open spec fn spec_links_in_range(rooms: Seq<Room>) -> bool {
    forall|k: int, d: int| 0 <= k < MAX_ROOM && 0 <= d < 4 ==> ((#[trigger] rooms[k].doors@[d]).oth_room matches Some(o) ==> o < MAX_ROOM)
}

/// Whether every room and maze is reached through doors from the last
/// one, in at most eight steps (as many as nine slots need).
pub open spec fn spec_all_connected(rooms: Seq<Room>) -> bool {
    let s = spec_last_room_or_maze(rooms, MAX_ROOM as int);
    s < 0 || forall|k: int| 0 <= k < MAX_ROOM && spec_slot_is_room_or_maze(rooms, k) ==> #[trigger] spec_reach(rooms, s, 8, k)
}

/// Whether every room and maze of the level can be reached from the last
/// one through the doors that lead between them.
pub fn is_all_connected(rooms: &[Room; 9]) -> (r: bool)
    requires
        spec_links_in_range(rooms@),
    ensures
        r == spec_all_connected(rooms@),
{
    let kinds = vec![RoomType::Room, RoomType::Maze];
    let mut start: usize = MAX_ROOM;
    let mut i: usize = 0;
    while i < MAX_ROOM
        invariant
            i <= MAX_ROOM,
            kinds@ == seq![RoomType::Room, RoomType::Maze],
            -1 <= spec_last_room_or_maze(rooms@, i as int) < i,
            start == (if spec_last_room_or_maze(rooms@, i as int) < 0 { MAX_ROOM as int } else { spec_last_room_or_maze(rooms@, i as int) }),
        decreases MAX_ROOM - i,
    {
        let is_rm = rooms[i].room_type.is_type(&kinds);
        assert(is_rm == spec_slot_is_room_or_maze(rooms@, i as int)) by {
            let ty = rooms@[i as int].room_type;
            if ty is Room {
                assert(kinds@[0] == ty);
            }
            if ty is Maze {
                assert(kinds@[1] == ty);
            }
        }
        if is_rm {
            start = i;
        }
        i += 1;
    }
    if start == MAX_ROOM {
        return true;
    }
    let mut visited: [bool; 9] = [false; 9];
    visited[start] = true;
    let mut t: usize = 0;
    while t < 8
        invariant
            t <= 8,
            start < MAX_ROOM,
            spec_links_in_range(rooms@),
            forall|k: int| 0 <= k < MAX_ROOM ==> #[trigger] visited@[k] == spec_reach(rooms@, start as int, t as nat, k),
        decreases 8 - t,
    {
        let prev = visited;
        let mut j: usize = 0;
        while j < MAX_ROOM
            invariant
                j <= MAX_ROOM,
                start < MAX_ROOM,
                spec_links_in_range(rooms@),
                forall|k: int| 0 <= k < MAX_ROOM ==> #[trigger] prev@[k] == spec_reach(rooms@, start as int, t as nat, k),
                forall|k: int| 0 <= k < MAX_ROOM ==> #[trigger] visited@[k] == (spec_reach(rooms@, start as int, t as nat, k)
                    || spec_reached_via(rooms@, start as int, t as nat, j as int, k)),
            decreases MAX_ROOM - j,
        {
            if prev[j] {
                let mut d: usize = 0;
                while d < 4
                    invariant
                        d <= 4,
                        j < MAX_ROOM,
                        prev@[j as int],
                        prev@[j as int] == spec_reach(rooms@, start as int, t as nat, j as int),
                        spec_links_in_range(rooms@),
                        forall|k: int| 0 <= k < MAX_ROOM ==> #[trigger] visited@[k] == (spec_reach(rooms@, start as int, t as nat, k)
                            || spec_reached_via(rooms@, start as int, t as nat, j as int, k) || spec_linked_upto(rooms@, j as int, d as int, k)),
                    decreases 4 - d,
                {
                    if let Some(o) = rooms[j].doors[d].oth_room {
                        assert(o < MAX_ROOM);
                        visited[o] = true;
                    }
                    d += 1;
                }
            }
            j += 1;
        }
        t += 1;
    }
    let mut k: usize = 0;
    while k < MAX_ROOM
        invariant
            k <= MAX_ROOM,
            start < MAX_ROOM,
            start as int == spec_last_room_or_maze(rooms@, MAX_ROOM as int),
            kinds@ == seq![RoomType::Room, RoomType::Maze],
            forall|x: int| 0 <= x < MAX_ROOM ==> #[trigger] visited@[x] == spec_reach(rooms@, start as int, 8, x),
            forall|x: int| 0 <= x < k && spec_slot_is_room_or_maze(rooms@, x) ==> #[trigger] spec_reach(rooms@, start as int, 8, x),
        decreases MAX_ROOM - k,
    {
        let is_rm = rooms[k].room_type.is_type(&kinds);
        assert(is_rm == spec_slot_is_room_or_maze(rooms@, k as int)) by {
            let ty = rooms@[k as int].room_type;
            if ty is Room {
                assert(kinds@[0] == ty);
            }
            if ty is Maze {
                assert(kinds@[1] == ty);
            }
        }
        if is_rm && !visited[k] {
            return false;
        }
        k += 1;
    }
    true
}

/// Whether slots `a`, `b`, `c` make up one band of rows or of columns.
pub open spec fn spec_is_line(a: usize, b: usize, c: usize) -> bool {
    ||| (a, b, c) == (0usize, 1usize, 2usize)
    ||| (a, b, c) == (3usize, 4usize, 5usize)
    ||| (a, b, c) == (6usize, 7usize, 8usize)
    ||| (a, b, c) == (0usize, 3usize, 6usize)
    ||| (a, b, c) == (1usize, 4usize, 7usize)
    ||| (a, b, c) == (2usize, 5usize, 8usize)
}

/// Whether all three slots `a`, `b`, `c` hold rooms.
pub open spec fn spec_rooms_built(level: Level, a: usize, b: usize, c: usize) -> bool {
    &&& level.rooms@[a as int].room_type is Room
    &&& level.rooms@[b as int].room_type is Room
    &&& level.rooms@[c as int].room_type is Room
}

/// Whether some band of three slots holds rooms only.
pub open spec fn spec_has_room_line(level: Level) -> bool {
    exists|a: usize, b: usize, c: usize| #[trigger] spec_is_line(a, b, c) && spec_rooms_built(level, a, b, c)
}

/// Builds one big room that spans most of the dungeon, kept in slot 0.
fn make_big_room(level: &mut Level)
    requires
        old(level).wf(),
    ensures
        final(level).wf(),
        final(level).rooms@[0].room_type is Room,
        spec_room_in_dungeon(final(level).rooms@[0]),
        forall|k: int| 1 <= k < MAX_ROOM ==> #[trigger] final(level).rooms@[k] == old(level).rooms@[k],
        final(level).rooms@[0].doors == old(level).rooms@[0].doors,
        final(level).target_room_offsets == old(level).target_room_offsets,
{
    let top = get_rand(MIN_ROW, MIN_ROW + 5);
    let bottom = get_rand(DROWS as i64 - 7, DROWS as i64 - 2);
    let left = get_rand(0, 10);
    let right = get_rand(DCOLS as i64 - 11, DCOLS as i64 - 1);
    let room_bounds = RoomBounds { top, right, bottom, left };
    carve_room(&room_bounds, level);
    level.rooms[0].room_type = RoomType::Room;
    level.rooms[0].set_bounds(&room_bounds);
}

/// Makes a new level on `level` (whose slots hold nothing yet), as
/// `lay_out_level` says; then, where the rogue lacks the amulet and the
/// depth is the amulet's or deeper, the amulet is put down at random (away
/// from the rogue at `rogue`) as `put_amulet` says.
pub fn make_level(
    level_depth: usize,
    party_counter: usize,
    has_amulet: bool,
    rogue: DungeonSpot,
    level: &mut Level,
    ground: &mut ObjectPack,
)
    requires
        old(level).wf(),
        spec_offsets_ok(*old(level)),
        spec_links_in_range(old(level).rooms@),
        level_depth <= usize::MAX / 5,
    ensures
        final(level).wf(),
        spec_offsets_ok(*final(level)),
        ({
            ||| (spec_rooms_laid_out(*final(level)) && spec_has_room_line(*final(level)))
            ||| (level_depth == party_counter && final(level).rooms@[0].room_type is Room)
        }),
        has_amulet || level_depth < AMULET_LEVEL ==> final(ground)@ == old(ground)@,
        !has_amulet && level_depth >= AMULET_LEVEL ==> final(ground)@ == old(ground)@ || ({
            &&& final(ground)@.len() == old(ground)@.len() + 1
            &&& final(ground)@.drop_last() == old(ground)@
            &&& final(ground)@.last().what_is is Amulet
            &&& final(level).cell_at(final(ground)@.last().spot.row as int, final(ground)@.last().spot.col as int).object is Amulet
        }),
{
    lay_out_level(level_depth, party_counter, level);
    if !has_amulet && level_depth >= AMULET_LEVEL {
        let ghost laid = *level;
        let placed = put_amulet(rogue, level, ground);
        proof {
            assert(level.rooms == laid.rooms);
            assert(level.target_room_offsets == laid.target_room_offsets);
            if let Some(sp) = placed {
                assert(ground@.last().spot == sp);
            }
        }
    }
}

/// Lays out a new level on `level` (whose slots hold nothing yet): a band
/// of three slots drawn at random must hold rooms.  On the party level a
/// draw of one percent makes one big room instead.  Otherwise every slot is
/// laid out, empty slots may become mazes, and in an order left to chance
/// each slot is joined to its neighbours to the right and below, and across
/// an empty neighbour to the slot beyond (the empty one then becomes a
/// crossing), until all rooms and mazes are joined; the rest is filled out
/// with dead ends.
pub fn lay_out_level(level_depth: usize, party_counter: usize, level: &mut Level)
    requires
        old(level).wf(),
        spec_offsets_ok(*old(level)),
        spec_links_in_range(old(level).rooms@),
        level_depth <= usize::MAX / 5,
    ensures
        final(level).wf(),
        spec_offsets_ok(*final(level)),
        ({
            ||| (spec_rooms_laid_out(*final(level)) && spec_has_room_line(*final(level)))
            ||| (level_depth == party_counter && final(level).rooms@[0].room_type is Room)
        }),
{
    let (must_exist1, must_exist2, must_exist3): (usize, usize, usize) = match get_rand(0, 5) {
        0 => (0, 1, 2),
        1 => (3, 4, 5),
        2 => (6, 7, 8),
        3 => (0, 3, 6),
        4 => (1, 4, 7),
        _ => (2, 5, 8),
    };
    let big_room = level_depth == party_counter && rand_percent(1);
    if big_room {
        make_big_room(level);
        return;
    }
    let mut rn: usize = 0;
    while rn < MAX_ROOM
        invariant
            rn <= MAX_ROOM,
            level.wf(),
            spec_offsets_ok(*level),
            spec_links_in_range(level.rooms@),
            spec_is_line(must_exist1, must_exist2, must_exist3),
            forall|k: usize| k < rn ==> #[trigger] spec_fits_slot(level.rooms@[k as int].to_bounds(), k),
            must_exist1 < rn ==> level.rooms@[must_exist1 as int].room_type is Room,
            must_exist2 < rn ==> level.rooms@[must_exist2 as int].room_type is Room,
            must_exist3 < rn ==> level.rooms@[must_exist3 as int].room_type is Room,
        decreases MAX_ROOM - rn,
    {
        let ghost before = *level;
        make_room(rn, must_exist1, must_exist2, must_exist3, level);
        proof {
            assert forall|k: int, d: int| 0 <= k < MAX_ROOM && 0 <= d < 4 implies ((#[trigger] level.rooms@[k].doors@[d]).oth_room matches Some(o) ==> o < MAX_ROOM) by {
                if k != rn {
                    assert(level.rooms@[k] == before.rooms@[k]);
                }
            }
            assert forall|k: usize| k < rn + 1 implies #[trigger] spec_fits_slot(level.rooms@[k as int].to_bounds(), k) by {
                if k != rn {
                    assert(level.rooms@[k as int] == before.rooms@[k as int]);
                }
            }
        }
        rn += 1;
    }
    assert(spec_rooms_built(*level, must_exist1, must_exist2, must_exist3));
    let ghost built = *level;
    add_mazes(level_depth, level);
    proof {
        assert forall|k: usize| k < MAX_ROOM implies #[trigger] spec_fits_slot(level.rooms@[k as int].to_bounds(), k) by {
            assert(level.rooms@[k as int].to_bounds() == built.rooms@[k as int].to_bounds());
            assert(spec_fits_slot(built.rooms@[k as int].to_bounds(), k));
        }
        assert forall|k: int, d: int| 0 <= k < MAX_ROOM && 0 <= d < 4 implies ((#[trigger] level.rooms@[k].doors@[d]).oth_room matches Some(o) ==> o < MAX_ROOM) by {
            assert(level.rooms@[k].doors == built.rooms@[k].doors);
            assert(built.rooms@[k].doors@[d] == level.rooms@[k].doors@[d]);
        }
        assert(level.rooms@[must_exist1 as int].room_type == built.rooms@[must_exist1 as int].room_type);
        assert(level.rooms@[must_exist2 as int].room_type == built.rooms@[must_exist2 as int].room_type);
        assert(level.rooms@[must_exist3 as int].room_type == built.rooms@[must_exist3 as int].room_type);
    }
    let shuffled = shuffled_rns();
    let mut idx: usize = 0;
    while idx < MAX_ROOM
        invariant
            idx <= MAX_ROOM,
            forall|j: int| 0 <= j < MAX_ROOM ==> #[trigger] shuffled@[j] < MAX_ROOM,
            level.wf(),
            spec_offsets_ok(*level),
            spec_rooms_laid_out(*level),
            spec_links_in_range(level.rooms@),
            spec_is_line(must_exist1, must_exist2, must_exist3),
            spec_rooms_built(*level, must_exist1, must_exist2, must_exist3),
        decreases MAX_ROOM - idx,
    {
        let i = shuffled[idx];
        proof {
            lemma_laid_out_rooms_in_dungeon(*level);
        }
        if i < MAX_ROOM - 1 {
            connect_rooms(i, i + 1, level_depth, level);
        }
        proof {
            lemma_laid_out_rooms_in_dungeon(*level);
        }
        if i < MAX_ROOM - 3 {
            connect_rooms(i, i + 3, level_depth, level);
        }
        proof {
            lemma_laid_out_rooms_in_dungeon(*level);
        }
        if i < MAX_ROOM - 2 {
            if level.rooms[i + 1].room_type.is_nothing() {
                if connect_rooms(i, i + 2, level_depth, level) {
                    level.rooms[i + 1].room_type = RoomType::Cross;
                }
            }
        }
        proof {
            lemma_laid_out_rooms_in_dungeon(*level);
        }
        if i < MAX_ROOM - 6 {
            if level.rooms[i + 3].room_type.is_nothing() {
                if connect_rooms(i, i + 6, level_depth, level) {
                    level.rooms[i + 3].room_type = RoomType::Cross;
                }
            }
        }
        if is_all_connected(&level.rooms) {
            break;
        }
        idx += 1;
    }
    let ghost joined = *level;
    fill_out_level(level, level_depth);
    proof {
        assert(spec_level_grown(Level { recursive_deadend: None, ..joined }, *level));
        assert forall|k: usize| k < MAX_ROOM implies #[trigger] spec_fits_slot(level.rooms@[k as int].to_bounds(), k) by {
            assert(level.rooms@[k as int].to_bounds() == joined.rooms@[k as int].to_bounds());
            assert(spec_fits_slot(joined.rooms@[k as int].to_bounds(), k));
        }
        assert(spec_type_grown(joined.rooms@[must_exist1 as int].room_type, level.rooms@[must_exist1 as int].room_type));
        assert(spec_type_grown(joined.rooms@[must_exist2 as int].room_type, level.rooms@[must_exist2 as int].room_type));
        assert(spec_type_grown(joined.rooms@[must_exist3 as int].room_type, level.rooms@[must_exist3 as int].room_type));
        assert(spec_is_line(must_exist1, must_exist2, must_exist3) && spec_rooms_built(*level, must_exist1, must_exist2, must_exist3));
    }
}

/// Every room of a laid-out level lies inside the dungeon.
proof fn lemma_laid_out_rooms_in_dungeon(level: Level)
    requires
        spec_rooms_laid_out(level),
    ensures
        forall|k: int| 0 <= k < MAX_ROOM ==> spec_room_in_dungeon(#[trigger] level.rooms@[k]),
{
    assert forall|k: int| 0 <= k < MAX_ROOM implies spec_room_in_dungeon(#[trigger] level.rooms@[k]) by {
        assert(spec_fits_slot(level.rooms@[k].to_bounds(), k as usize));
        lemma_fits_slot_in_dungeon(level.rooms@[k], k as usize);
    }
}

/// Digging only adds to a level: a level has grown from itself, growth
/// after growth is growth, and a laid-out level stays laid out as it grows.
pub proof fn law_growth_is_a_preorder(a: Level, b: Level, c: Level)
    requires
        a.wf(),
    ensures
        spec_level_grown(a, a),
        spec_level_grown(a, b) && spec_level_grown(b, c) ==> spec_level_grown(a, c),
        spec_level_grown(a, b) && spec_rooms_laid_out(a) ==> spec_rooms_laid_out(b),
{
    lemma_grown_refl(a);
    if spec_level_grown(a, b) && spec_level_grown(b, c) {
        lemma_grown_trans(a, b, c);
    }
    if spec_level_grown(a, b) && spec_rooms_laid_out(a) {
        lemma_grown_laid_out(a, b);
    }
}

} // verus!
