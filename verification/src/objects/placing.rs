//! Putting the stairs, the amulet, gold and other objects down on a level.
use vstd::prelude::*;

use crate::constants::{DCOLS, DROWS, MAX_ROOM, MIN_ROW};
use crate::level::cells::DungeonCell;
use crate::level::materials::{spec_with_stairs, CellMaterial, FloorFixture, TunnelFixture, Visibility};
use crate::level::{in_dungeon, Level};
use crate::object_what::ObjectWhat;
use crate::objects::object_pack::ObjectPack;
use crate::objects::roll::{alloc_object, get_food, gr_armor, gr_potion, gr_ring, gr_scroll, gr_wand, gr_weapon};
use crate::objects::Object;
use crate::random::{coin_toss, get_rand, rand_percent};
use crate::room::RoomType;
use crate::spot::DungeonSpot;

verus! {

/// How many spots are drawn before the level is searched in order.
pub const SPOT_DRAWS: usize = 1000;

/// Whether `spot` can take something put down at random: a cell of floor
/// or passage (or, with `or_object`, one with an object) on a row below the
/// message line and above the stats line, other than the rogue's.
pub open spec fn spec_spot_ok(level: Level, rogue: DungeonSpot, spot: DungeonSpot, or_object: bool) -> bool {
    &&& MIN_ROW <= spot.row <= DROWS - 2
    &&& 0 <= spot.col < DCOLS
    &&& (level.cell_at(spot.row as int, spot.col as int).material is Floor
        || level.cell_at(spot.row as int, spot.col as int).material is Tunnel
        || (or_object && !(level.cell_at(spot.row as int, spot.col as int).object is Nothing)))
    &&& spot != rogue
}

/// Whether the cell at `row`, `col` can take something put down at random.
fn spot_ok(row: i64, col: i64, rogue: DungeonSpot, or_object: bool, level: &Level) -> (r: bool)
    requires
        level.wf(),
        MIN_ROW <= row <= DROWS - 2,
        0 <= col < DCOLS,
    ensures
        r == spec_spot_ok(*level, rogue, DungeonSpot { row, col }, or_object),
{
    let cell = level.cell(DungeonSpot { row, col });
    (cell.is_any_floor() || cell.is_any_tunnel() || (or_object && cell.has_object())) && !(row == rogue.row && col == rogue.col)
}

/// A spot that can take something put down at random (`spec_spot_ok`):
/// the first of up to `SPOT_DRAWS` spots drawn at random that can, or else
/// the first in reading order; `None` only where no spot can.
pub fn gr_spot(rogue: DungeonSpot, or_object: bool, level: &Level) -> (r: Option<DungeonSpot>)
    requires
        level.wf(),
    ensures
        r matches Some(s) ==> spec_spot_ok(*level, rogue, s, or_object),
        r is None ==> forall|row: i64, col: i64| !#[trigger] spec_spot_ok(*level, rogue, DungeonSpot { row, col }, or_object),
{
    let mut i: usize = 0;
    while i < SPOT_DRAWS
        invariant
            level.wf(),
        decreases SPOT_DRAWS - i,
    {
        let row = get_rand(MIN_ROW, DROWS as i64 - 2);
        let col = get_rand(0, DCOLS as i64 - 1);
        if spot_ok(row, col, rogue, or_object, level) {
            return Some(DungeonSpot { row, col });
        }
        i += 1;
    }
    let mut row: i64 = MIN_ROW;
    while row <= DROWS as i64 - 2
        invariant
            level.wf(),
            MIN_ROW <= row <= DROWS - 1,
            forall|r: i64, c: i64| r < row ==> !#[trigger] spec_spot_ok(*level, rogue, DungeonSpot { row: r, col: c }, or_object),
        decreases DROWS - 1 - row,
    {
        let mut col: i64 = 0;
        while col < DCOLS as i64
            invariant
                level.wf(),
                MIN_ROW <= row <= DROWS - 2,
                0 <= col <= DCOLS,
                forall|r: i64, c: i64| r < row ==> !#[trigger] spec_spot_ok(*level, rogue, DungeonSpot { row: r, col: c }, or_object),
                forall|c: i64| c < col ==> !#[trigger] spec_spot_ok(*level, rogue, DungeonSpot { row, col: c }, or_object),
            decreases DCOLS - col,
        {
            if spot_ok(row, col, rogue, or_object, level) {
                return Some(DungeonSpot { row, col });
            }
            col += 1;
        }
        row += 1;
    }
    None
}

/// Puts the stairs down on a spot of floor or passage that `gr_spot` picks, and returns
/// it; where no spot can take them the level stays as it was.
pub fn put_stairs(rogue: DungeonSpot, level: &mut Level) -> (r: Option<DungeonSpot>)
    requires
        old(level).wf(),
    ensures
        final(level).wf(),
        final(level).same_but_dungeon(old(level)),
        r is None ==> *final(level) == *old(level)
            && forall|row: i64, col: i64| !#[trigger] spec_spot_ok(*old(level), rogue, DungeonSpot { row, col }, false),
        r matches Some(s) ==> spec_spot_ok(*old(level), rogue, s, false)
            && final(level).cell_at(s.row as int, s.col as int) == (DungeonCell {
                material: spec_with_stairs(old(level).cell_at(s.row as int, s.col as int).material),
                ..old(level).cell_at(s.row as int, s.col as int)
            })
            && final(level).same_cells_except(old(level), s.row as int, s.col as int),
{
    match gr_spot(rogue, false, level) {
        None => None,
        Some(spot) => {
            assert(in_dungeon(spot.row as int, spot.col as int));
            level.cell_mut(spot).add_stairs();
            Some(spot)
        },
    }
}

/// Puts `obj` down at `row`, `col`: it lies there, the cell shows it, and
/// the ground holds it last.
pub fn place_at(obj: Object, row: i64, col: i64, level: &mut Level, ground: &mut ObjectPack)
    requires
        old(level).wf(),
        in_dungeon(row as int, col as int),
    ensures
        final(level).wf(),
        final(level).same_but_dungeon(old(level)),
        final(level).cell_at(row as int, col as int) == (DungeonCell {
            object: obj.what_is,
            ..old(level).cell_at(row as int, col as int)
        }),
        final(level).same_cells_except(old(level), row as int, col as int),
        final(ground)@ == old(ground)@.push(Object { spot: DungeonSpot { row, col }, ..obj }),
{
    let mut obj = obj;
    obj.spot = DungeonSpot { row, col };
    level.cell_mut(DungeonSpot { row, col }).set_object(obj.what_is);
    ground.add(obj);
}

/// Puts `obj` down on a spot of floor or passage that `gr_spot` picks, and
/// returns it; where there is none, nothing changes.
pub fn rand_place(obj: Object, rogue: DungeonSpot, level: &mut Level, ground: &mut ObjectPack) -> (r: Option<DungeonSpot>)
    requires
        old(level).wf(),
    ensures
        final(level).wf(),
        final(level).same_but_dungeon(old(level)),
        r is None ==> *final(level) == *old(level) && final(ground)@ == old(ground)@
            && forall|row: i64, col: i64| !#[trigger] spec_spot_ok(*old(level), rogue, DungeonSpot { row, col }, false),
        r matches Some(s) ==> spec_spot_ok(*old(level), rogue, s, false)
            && final(level).cell_at(s.row as int, s.col as int) == (DungeonCell {
                object: obj.what_is,
                ..old(level).cell_at(s.row as int, s.col as int)
            })
            && final(level).same_cells_except(old(level), s.row as int, s.col as int)
            && final(ground)@ == old(ground)@.push(Object { spot: s, ..obj }),
{
    match gr_spot(rogue, false, level) {
        None => None,
        Some(spot) => {
            place_at(obj, spot.row, spot.col, level, ground);
            Some(spot)
        },
    }
}

/// Whether `pack` holds the amulet.
pub open spec fn spec_has_amulet(pack: Seq<Object>) -> bool {
    exists|i: int| 0 <= i < pack.len() && #[trigger] pack[i].what_is == ObjectWhat::Amulet
}

/// Whether `pack` holds the amulet.
pub fn has_amulet(pack: &Vec<Object>) -> (r: bool)
    ensures
        r == spec_has_amulet(pack@),
{
    let mut i: usize = 0;
    while i < pack.len()
        invariant
            i <= pack@.len(),
            forall|j: int| 0 <= j < i ==> pack@[j].what_is != ObjectWhat::Amulet,
        decreases pack@.len() - i,
    {
        if pack[i].what_is == ObjectWhat::Amulet {
            return true;
        }
        i += 1;
    }
    false
}

/// Puts the amulet of Yendor down at random, as `rand_place` does.
pub fn put_amulet(rogue: DungeonSpot, level: &mut Level, ground: &mut ObjectPack) -> (r: Option<DungeonSpot>)
    requires
        old(level).wf(),
    ensures
        final(level).wf(),
        final(level).same_but_dungeon(old(level)),
        r is None ==> *final(level) == *old(level) && final(ground)@ == old(ground)@,
        r matches Some(s) ==> spec_spot_ok(*old(level), rogue, s, false)
            && final(level).cell_at(s.row as int, s.col as int) == (DungeonCell {
                object: ObjectWhat::Amulet,
                ..old(level).cell_at(s.row as int, s.col as int)
            })
            && final(level).same_cells_except(old(level), s.row as int, s.col as int)
            && final(ground)@.len() == old(ground)@.len() + 1
            && final(ground)@.drop_last() == old(ground)@
            && final(ground)@.last().what_is is Amulet && final(ground)@.last().spot == s,
{
    let mut obj = alloc_object();
    obj.what_is = ObjectWhat::Amulet;
    let r = rand_place(obj, rogue, level, ground);
    proof {
        if let Some(s) = r {
            assert(ground@.drop_last() =~= old(ground)@);
        }
    }
    r
}

/// The class of object that a draw of `percent` (1 to 91) gives: a scroll
/// (30 or less), a potion (to 60), a wand (to 64), a weapon (to 74), armor
/// (to 83), food (to 88) or a ring.
pub open spec fn spec_what_roll(percent: int) -> ObjectWhat {
    if percent <= 30 {
        ObjectWhat::Scroll
    } else if percent <= 60 {
        ObjectWhat::Potion
    } else if percent <= 64 {
        ObjectWhat::Wand
    } else if percent <= 74 {
        ObjectWhat::Weapon
    } else if percent <= 83 {
        ObjectWhat::Armor
    } else if percent <= 88 {
        ObjectWhat::Food
    } else {
        ObjectWhat::Ring
    }
}

/// A class of object drawn as `spec_what_roll` says.
pub fn gr_what_is() -> (r: ObjectWhat)
    ensures
        exists|p: int| 1 <= p <= 91 && r == #[trigger] spec_what_roll(p),
{
    let percent = get_rand(1, 91);
    let r = if percent <= 30 {
        ObjectWhat::Scroll
    } else if percent <= 60 {
        ObjectWhat::Potion
    } else if percent <= 64 {
        ObjectWhat::Wand
    } else if percent <= 74 {
        ObjectWhat::Weapon
    } else if percent <= 83 {
        ObjectWhat::Armor
    } else if percent <= 88 {
        ObjectWhat::Food
    } else {
        ObjectWhat::Ring
    };
    assert(r == spec_what_roll(percent as int));
    r
}

/// A new object for depth `depth`: food while fewer than half the depth's
/// worth of food (`foods`) has been made, which then counts one more;
/// otherwise of a class drawn as `gr_what_is` says.  It is then rolled as
/// its class's roller says (weapons and rings of a kind drawn too).
pub fn gr_object(depth: usize, foods: &mut usize) -> (r: Object)
    requires
        *old(foods) < usize::MAX,
    ensures
        *old(foods) < depth / 2 ==> r.what_is is Food && *final(foods) == *old(foods) + 1,
        *old(foods) >= depth / 2 ==> *final(foods) == *old(foods)
            && exists|p: int| 1 <= p <= 91 && r.what_is == #[trigger] spec_what_roll(p),
        r.what_is is Weapon ==> r.which_kind < 8,
        r.what_is is Armor ==> r.which_kind < 7,
        r.what_is is Wand ==> r.which_kind < 10,
        r.what_is is Ring ==> r.which_kind < 11,
        r.what_is is Scroll ==> r.which_kind < 12,
        r.what_is is Potion ==> r.which_kind < 14,
        r.what_is is Food ==> r.which_kind < 2,
{
    let mut obj = alloc_object();
    if *foods < depth / 2 {
        obj.what_is = ObjectWhat::Food;
        *foods = *foods + 1;
    } else {
        obj.what_is = gr_what_is();
    }
    let what = obj.what_is;
    if what == ObjectWhat::Scroll {
        gr_scroll(&mut obj);
    } else if what == ObjectWhat::Potion {
        gr_potion(&mut obj);
    } else if what == ObjectWhat::Weapon {
        gr_weapon(&mut obj, true);
    } else if what == ObjectWhat::Armor {
        gr_armor(&mut obj);
    } else if what == ObjectWhat::Wand {
        gr_wand(&mut obj);
    } else if what == ObjectWhat::Food {
        get_food(&mut obj, false);
    } else {
        gr_ring(&mut obj, true);
    }
    obj
}

/// The depth of the next party after depth `depth`: a depth drawn among
/// the ten that follow the first multiple of ten at `depth` or below it.
pub fn next_party(depth: usize) -> (r: usize)
    requires
        depth <= usize::MAX - 20,
    ensures
        ({
            let n = if depth % 10 == 0 { depth as int } else { depth + 10 - depth % 10 };
            n + 1 <= r <= n + 10
        }),
{
    let n = if depth % 10 == 0 { depth } else { depth + 10 - depth % 10 };
    crate::random::get_rand_usize(n + 1, n + 10)
}

/// The chance in percent that a room gets gold.
pub const GOLD_PERCENT: i64 = 46;

/// Whether a cell can take gold: plain floor or plain visible passage, with
/// no object and no monster.
pub open spec fn spec_gold_cell(c: DungeonCell) -> bool {
    &&& (c.material == CellMaterial::Floor(FloorFixture::Nothing)
        || c.material == CellMaterial::Tunnel(Visibility::Visible, TunnelFixture::Nothing))
    &&& c.object is Nothing
    &&& !c.monster
}

/// Whether `quantity` is a count of gold planted at depth `depth`: a draw
/// from twice to sixteen times the depth, half again as much in a maze.
pub open spec fn spec_planted_gold(depth: int, is_maze: bool, quantity: int) -> bool {
    exists|q: int| 2 * depth <= q <= 16 * depth && quantity == #[trigger] spec_maze_gold(q, is_maze)
}

/// A count of `q` pieces, half again as much in a maze.
pub open spec fn spec_maze_gold(q: int, is_maze: bool) -> int {
    if is_maze { q + q / 2 } else { q }
}

/// Plants gold for depth `depth` at `row`, `col` (more of it in a maze):
/// the cell shows gold and the ground holds it last.
pub fn plant_gold(row: i64, col: i64, is_maze: bool, depth: usize, level: &mut Level, ground: &mut ObjectPack)
    requires
        old(level).wf(),
        in_dungeon(row as int, col as int),
        24 * depth <= i16::MAX,
    ensures
        final(level).wf(),
        final(level).same_but_dungeon(old(level)),
        final(level).cell_at(row as int, col as int) == (DungeonCell {
            object: ObjectWhat::Gold,
            ..old(level).cell_at(row as int, col as int)
        }),
        final(level).same_cells_except(old(level), row as int, col as int),
        final(ground)@.len() == old(ground)@.len() + 1,
        final(ground)@.drop_last() == old(ground)@,
        final(ground)@.last().what_is is Gold,
        final(ground)@.last().spot == (DungeonSpot { row, col }),
        spec_planted_gold(depth as int, is_maze, final(ground)@.last().quantity as int),
{
    let mut obj = alloc_object();
    obj.what_is = ObjectWhat::Gold;
    let q = get_rand(2 * depth as i64, 16 * depth as i64) as i16;
    obj.quantity = if is_maze { q + q / 2 } else { q };
    assert(obj.quantity as int == spec_maze_gold(q as int, is_maze));
    place_at(obj, row, col, level, ground);
    assert(ground@.drop_last() =~= old(ground)@);
}

/// Whether `level`, `ground` are `level0`, `ground0` with gold planted: the
/// ground gains only gold of depth `depth`'s counts, each on a cell that
/// now shows gold, and a cell changes only from one that could take gold
/// to the same showing gold.
pub open spec fn spec_gold_put(level0: Level, level: Level, ground0: Seq<Object>, ground: Seq<Object>, depth: int) -> bool {
    &&& level.wf()
    &&& level.same_but_dungeon(&level0)
    &&& ground.len() >= ground0.len()
    &&& ground.take(ground0.len() as int) == ground0
    &&& forall|k: int| ground0.len() <= k < ground.len() ==> {
        &&& (#[trigger] ground[k]).what_is is Gold
        &&& (spec_planted_gold(depth, false, ground[k].quantity as int) || spec_planted_gold(depth, true, ground[k].quantity as int))
        &&& in_dungeon(ground[k].spot.row as int, ground[k].spot.col as int)
        &&& level.cell_at(ground[k].spot.row as int, ground[k].spot.col as int).object is Gold
    }
    &&& forall|r: int, c: int| in_dungeon(r, c) && #[trigger] level.cell_at(r, c) != level0.cell_at(r, c)
        ==> spec_gold_cell(level0.cell_at(r, c)) && level.cell_at(r, c) == (DungeonCell { object: ObjectWhat::Gold, ..level0.cell_at(r, c) })
}

/// Puts gold in the rooms and mazes: every maze, and every room with a
/// chance of `GOLD_PERCENT`, gets gold at the first of up to fifty spots
/// drawn inside its walls that can take it (`spec_gold_cell`).
pub fn put_gold(depth: usize, level: &mut Level, ground: &mut ObjectPack)
    requires
        old(level).wf(),
        24 * depth <= i16::MAX,
    ensures
        spec_gold_put(*old(level), *final(level), old(ground)@, final(ground)@, depth as int),
{
    assert(ground@.take(ground@.len() as int) =~= ground@);
    let mut i: usize = 0;
    while i < MAX_ROOM
        invariant
            i <= MAX_ROOM,
            24 * depth <= i16::MAX,
            spec_gold_put(*old(level), *level, old(ground)@, ground@, depth as int),
        decreases MAX_ROOM - i,
    {
        let is_maze = level.rooms[i].room_type == RoomType::Maze;
        let is_room = level.rooms[i].room_type == RoomType::Room;
        if is_room || is_maze {
            if is_maze || rand_percent(GOLD_PERCENT) {
                let top = level.rooms[i].top_row;
                let bottom = level.rooms[i].bottom_row;
                let left = level.rooms[i].left_col;
                let right = level.rooms[i].right_col;
                if top < i64::MAX && bottom > i64::MIN && left < i64::MAX && right > i64::MIN {
                    let mut j: usize = 0;
                    while j < 50
                        invariant
                            j <= 50,
                            24 * depth <= i16::MAX,
                            spec_gold_put(*old(level), *level, old(ground)@, ground@, depth as int),
                            top < i64::MAX && bottom > i64::MIN && left < i64::MAX && right > i64::MIN,
                        decreases 50 - j,
                    {
                        let row = get_rand(top + 1, bottom - 1);
                        let col = get_rand(left + 1, right - 1);
                        if 0 <= row && row < DROWS as i64 && 0 <= col && col < DCOLS as i64 {
                            let spot = DungeonSpot { row, col };
                            let cell = level.cell(spot);
                            if cell.is_material_no_others(CellMaterial::Floor(FloorFixture::Nothing))
                                || cell.is_material_no_others(CellMaterial::Tunnel(Visibility::Visible, TunnelFixture::Nothing)) {
                                let ghost l1 = *level;
                                let ghost g1 = ground@;
                                plant_gold(row, col, is_maze, depth, level, ground);
                                proof {
                                    lemma_gold_step(*old(level), l1, *level, old(ground)@, g1, ground@, depth as int, row as int, col as int, is_maze);
                                }
                                break;
                            }
                        }
                        j += 1;
                    }
                }
            }
        }
        i += 1;
    }
}

/// Planting gold on a cell that can take it keeps `spec_gold_put`.
proof fn lemma_gold_step(
    level0: Level,
    l1: Level,
    l2: Level,
    ground0: Seq<Object>,
    g1: Seq<Object>,
    g2: Seq<Object>,
    depth: int,
    row: int,
    col: int,
    is_maze: bool,
)
    requires
        spec_gold_put(level0, l1, ground0, g1, depth),
        in_dungeon(row, col),
        spec_gold_cell(l1.cell_at(row, col)),
        l2.wf(),
        l2.same_but_dungeon(&l1),
        l2.cell_at(row, col) == (DungeonCell { object: ObjectWhat::Gold, ..l1.cell_at(row, col) }),
        l2.same_cells_except(&l1, row, col),
        g2.len() == g1.len() + 1,
        g2.drop_last() == g1,
        g2.last().what_is is Gold,
        g2.last().spot.row == row && g2.last().spot.col == col,
        spec_planted_gold(depth, is_maze, g2.last().quantity as int),
    ensures
        spec_gold_put(level0, l2, ground0, g2, depth),
{
    assert(g2.take(ground0.len() as int) =~= g1.take(ground0.len() as int)) by {
        assert forall|k: int| 0 <= k < ground0.len() implies g2[k] == g1[k] by {
            assert(g2.drop_last()[k] == g2[k]);
        }
    }
    assert(l1.cell_at(row, col) == level0.cell_at(row, col)) by {
        if l1.cell_at(row, col) != level0.cell_at(row, col) {
            assert(l1.cell_at(row, col).object is Gold);
        }
    }
    assert forall|k: int| ground0.len() <= k < g2.len() implies {
        &&& (#[trigger] g2[k]).what_is is Gold
        &&& (spec_planted_gold(depth, false, g2[k].quantity as int) || spec_planted_gold(depth, true, g2[k].quantity as int))
        &&& in_dungeon(g2[k].spot.row as int, g2[k].spot.col as int)
        &&& l2.cell_at(g2[k].spot.row as int, g2[k].spot.col as int).object is Gold
    } by {
        if k < g1.len() {
            assert(g2[k] == g2.drop_last()[k]);
            assert(g2[k] == g1[k]);
            let s = g1[k].spot;
            if !(s.row == row && s.col == col) {
                assert(l2.cell_at(s.row as int, s.col as int) == l1.cell_at(s.row as int, s.col as int));
            }
        } else {
            assert(g2[k] == g2.last());
        }
    }
    assert forall|r: int, c: int| in_dungeon(r, c) && #[trigger] l2.cell_at(r, c) != level0.cell_at(r, c)
        implies spec_gold_cell(level0.cell_at(r, c)) && l2.cell_at(r, c) == (DungeonCell { object: ObjectWhat::Gold, ..level0.cell_at(r, c) }) by {
        if !(r == row && c == col) {
            assert(l2.cell_at(r, c) == l1.cell_at(r, c));
        }
    }
}

/// Whether `level`, `ground` are `level0`, `ground0` with objects put
/// down: the ground only gains objects, and a cell changes only by showing
/// an object.
pub open spec fn spec_objects_put(level0: Level, level: Level, ground0: Seq<Object>, ground: Seq<Object>) -> bool {
    &&& level.wf()
    &&& level.same_but_dungeon(&level0)
    &&& ground.len() >= ground0.len()
    &&& ground.take(ground0.len() as int) == ground0
    &&& forall|r: int, c: int| in_dungeon(r, c) && #[trigger] level.cell_at(r, c) != level0.cell_at(r, c)
        ==> !(level.cell_at(r, c).object is Nothing)
            && level.cell_at(r, c) == (DungeonCell { object: level.cell_at(r, c).object, ..level0.cell_at(r, c) })
}

/// Putting down more objects keeps `spec_objects_put`.
proof fn lemma_objects_put_trans(
    l0: Level,
    l1: Level,
    l2: Level,
    g0: Seq<Object>,
    g1: Seq<Object>,
    g2: Seq<Object>,
)
    requires
        spec_objects_put(l0, l1, g0, g1),
        spec_objects_put(l1, l2, g1, g2),
    ensures
        spec_objects_put(l0, l2, g0, g2),
{
    assert(g2.take(g0.len() as int) =~= g0) by {
        assert forall|k: int| 0 <= k < g0.len() implies g2[k] == g0[k] by {
            assert(g2.take(g1.len() as int)[k] == g2[k]);
            assert(g1.take(g0.len() as int)[k] == g1[k]);
        }
    }
    assert forall|r: int, c: int| in_dungeon(r, c) && #[trigger] l2.cell_at(r, c) != l0.cell_at(r, c)
        implies !(l2.cell_at(r, c).object is Nothing)
            && l2.cell_at(r, c) == (DungeonCell { object: l2.cell_at(r, c).object, ..l0.cell_at(r, c) }) by {
        if l2.cell_at(r, c) == l1.cell_at(r, c) {
        } else if l1.cell_at(r, c) == l0.cell_at(r, c) {
        } else {
        }
    }
}

/// Gold put down keeps `spec_objects_put`.
proof fn lemma_gold_is_objects(level0: Level, level: Level, ground0: Seq<Object>, ground: Seq<Object>, depth: int)
    requires
        spec_gold_put(level0, level, ground0, ground, depth),
    ensures
        spec_objects_put(level0, level, ground0, ground),
{
}

/// Whether a party is due at depth `depth`: on the party level.
pub fn party_due(depth: usize, party_counter: usize) -> (r: bool)
    ensures
        r == (depth == party_counter),
{
    depth == party_counter
}

/// Puts the objects of a new level down, on levels no deeper than the
/// rogue has been before (`max_depth`) only: two to four or three to five
/// objects on a coin toss, one more for each draw of 33 percent that
/// succeeds in a row, each made as `gr_object` says and put down at random
/// as `rand_place` says; then gold as `put_gold` says.  (The party of the
/// party level is the caller's, as `party_due` says.)
pub fn put_objects(
    depth: usize,
    max_depth: usize,
    foods: &mut usize,
    rogue: DungeonSpot,
    level: &mut Level,
    ground: &mut ObjectPack,
)
    requires
        old(level).wf(),
        *old(foods) < usize::MAX,
        24 * depth <= i16::MAX,
    ensures
        depth < max_depth ==> *final(level) == *old(level) && final(ground)@ == old(ground)@ && *final(foods) == *old(foods),
        spec_objects_put(*old(level), *final(level), old(ground)@, final(ground)@),
{
    assert(ground@.take(ground@.len() as int) =~= ground@);
    if depth < max_depth {
        return;
    }
    let mut n: i64 = if coin_toss() { get_rand(2, 4) } else { get_rand(3, 5) };
    while n < i64::MAX && rand_percent(33)
        invariant
            n >= 2,
        decreases i64::MAX - n,
    {
        n += 1;
    }
    let ghost start_foods = *foods;
    let mut i: i64 = 0;
    while i < n
        invariant
            0 <= i <= n,
            24 * depth <= i16::MAX,
            *foods <= if start_foods >= depth / 2 { start_foods } else { depth / 2 },
            start_foods < usize::MAX,
            spec_objects_put(*old(level), *level, old(ground)@, ground@),
        decreases n - i,
    {
        let obj = gr_object(depth, foods);
        let ghost l1 = *level;
        let ghost g1 = ground@;
        let placed = rand_place(obj, rogue, level, ground);
        proof {
            assert(ground@.take(g1.len() as int) =~= g1);
            if let Some(sp) = placed {
                assert forall|r: int, c: int| in_dungeon(r, c) && #[trigger] level.cell_at(r, c) != l1.cell_at(r, c)
                    implies !(level.cell_at(r, c).object is Nothing)
                        && level.cell_at(r, c) == (DungeonCell { object: level.cell_at(r, c).object, ..l1.cell_at(r, c) }) by {
                    assert(r == sp.row && c == sp.col);
                }
            }
            assert(spec_objects_put(l1, *level, g1, ground@));
            lemma_objects_put_trans(*old(level), l1, *level, old(ground)@, g1, ground@);
        }
        i += 1;
    }
    let ghost l1 = *level;
    let ghost g1 = ground@;
    put_gold(depth, level, ground);
    proof {
        lemma_gold_is_objects(l1, *level, g1, ground@, depth as int);
        lemma_objects_put_trans(*old(level), l1, *level, old(ground)@, g1, ground@);
    }
}

/// The room the rogue is in at `s` once put down: passage on a cell of
/// passage, else the room there.
pub open spec fn spec_player_room(level: Level, s: DungeonSpot) -> crate::room::RoomMark {
    if level.cell_at(s.row as int, s.col as int).material is Tunnel {
        crate::room::RoomMark::Passage
    } else {
        crate::level::spec_room_mark(level.rooms@, s.row, s.col)
    }
}

/// Puts the rogue down on a new level: on a spot of floor, passage or an
/// object, away from where it stood (`rogue`), as `gr_spot` picks, drawn
/// again once where the first lies in `avoid_room`.  Returns the spot and
/// the room the rogue is then in (`spec_player_room`); `None` only where no
/// spot can take it.  The level's message, if any, is then shown and
/// cleared.
pub fn put_player_legacy(
    avoid_room: crate::room::RoomMark,
    rogue: DungeonSpot,
    level: &mut Level,
    messages: &mut Vec<String>,
) -> (r: Option<(DungeonSpot, crate::room::RoomMark)>)
    requires
        old(level).wf(),
    ensures
        r matches Some((s, room)) ==> spec_spot_ok(*old(level), rogue, s, true) && room == spec_player_room(*old(level), s),
        r is None ==> forall|row: i64, col: i64| !#[trigger] spec_spot_ok(*old(level), rogue, DungeonSpot { row, col }, true),
        final(level).new_level_message is None,
        *final(level) == (Level { new_level_message: None, ..*old(level) }),
        crate::motion::spec_texts(final(messages)@) == crate::motion::spec_texts(old(messages)@) + (match old(level).new_level_message {
            Some(m) => seq![m@],
            None => Seq::empty(),
        }),
{
    let mut found: Option<DungeonSpot> = None;
    let mut to_room = avoid_room;
    let mut misses: usize = 0;
    while misses < 2 && !(misses > 0 && to_room != avoid_room)
        invariant
            misses <= 2,
            level.wf(),
            *level == *old(level),
            found matches Some(s) ==> spec_spot_ok(*level, rogue, s, true)
                && to_room == crate::level::spec_room_mark(level.rooms@, s.row, s.col),
            found is None && misses > 0 ==> forall|row: i64, col: i64| !#[trigger] spec_spot_ok(*level, rogue, DungeonSpot { row, col }, true),
            0 < misses < 2 ==> found is Some,
        decreases 2 - misses,
    {
        match gr_spot(rogue, true, level) {
            None => {
                found = None;
                misses = 2;
            },
            Some(s) => {
                found = Some(s);
                to_room = level.room(s.row, s.col);
                misses += 1;
            },
        }
    }
    let r = match found {
        None => None,
        Some(s) => {
            let room = if level.cell(s).is_any_tunnel() { crate::room::RoomMark::Passage } else { to_room };
            Some((s, room))
        },
    };
    let ghost before = crate::motion::spec_texts(messages@);
    match level.new_level_message.take() {
        Some(m) => {
            messages.push(m);
            assert(crate::motion::spec_texts(messages@) =~= before + seq![old(level).new_level_message->0@]);
        },
        None => {
            assert(crate::motion::spec_texts(messages@) =~= before + Seq::empty());
        },
    }
    r
}

} // verus!
