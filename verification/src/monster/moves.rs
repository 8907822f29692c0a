//! How monsters move: whether a monster can step to a spot, the step
//! itself, and a monster's turn.
use vstd::prelude::*;

use crate::constants::{DCOLS, DROWS};
use crate::level::cells::spec_nothing_cell;
use crate::level::{in_dungeon, Level};
use crate::monster::mash::{MonsterIndex, MonsterMash, StuckCounter};
use crate::motion::{is_passable, spec_is_passable};
use crate::random::{get_rand, rand_percent, shuffle_array};
use crate::spot::DungeonSpot;
use crate::objects::Object;
use crate::objects::kinds::SCROLLS;
use crate::objects::object_pack::{lemma_position_at_valid, lemma_position_valid, spec_object, spec_position_at, ObjectPack};
use crate::objects::scrolls::{spec_scroll_kind_of, ScrollKind};

verus! {

/// Percent chance that a waking monster next to the rogue wakes.
pub const WAKE_PERCENT: i64 = 45;
/// Percent chance that a flitting monster flits in a turn.
pub const FLIT_PERCENT: i64 = 33;

/// Whether stepping from `(mr, mc)` to `(row, col)` takes a monster further
/// from the rogue at `(rr, rc)` in rows or in columns.
pub open spec fn spec_moves_away(row: int, col: int, mr: int, mc: int, rr: int, rc: int) -> bool {
    ||| (mr < rr && row < mr)
    ||| (mr > rr && row > mr)
    ||| (mc < rc && col < mc)
    ||| (mc > rc && col > mc)
}

/// The distance between two rows or two columns.
pub open spec fn spec_gap(a: int, b: int) -> int {
    if a >= b { a - b } else { b - a }
}

/// For a step of one at most, a monster moves away from the rogue exactly
/// when the step leaves it further from the rogue in rows, where it was not
/// level with the rogue, or further in columns, where it was not in line
/// with it.  So a step that brings it nearer in rows and keeps its column is
/// never away.
pub proof fn lemma_moves_away_is_further(row: int, col: int, mr: int, mc: int, rr: int, rc: int)
    requires
        -1 <= row - mr <= 1,
        -1 <= col - mc <= 1,
    ensures
        spec_moves_away(row, col, mr, mc, rr, rc) <==> ((mr != rr && spec_gap(row, rr) > spec_gap(mr, rr))
            || (mc != rc && spec_gap(col, rc) > spec_gap(mc, rc))),
        spec_gap(row, rr) < spec_gap(mr, rr) && col == mc ==> !spec_moves_away(row, col, mr, mc, rr, rc),
{
}

/// Whether stepping from `(mr, mc)` to `(row, col)` takes a monster further
/// from the rogue at `(rr, rc)` in rows or in columns.
pub fn a_moves_b_away_from_c(a: (i64, i64), b: (i64, i64), c: (i64, i64)) -> (r: bool)
    ensures
        r == spec_moves_away(a.0 as int, a.1 as int, b.0 as int, b.1 as int, c.0 as int, c.1 as int),
{
    let (row, col) = a;
    let (mr, mc) = b;
    let (rr, rc) = c;
    (mr < rr && row < mr) || (mr > rr && row > mr) || (mc < rc && col < mc) || (mc > rc && col > mc)
}

/// Whether a cell holds nothing at all; a spot outside the dungeon counts
/// as holding nothing.
pub open spec fn spec_no_feature(level: Level, row: int, col: int) -> bool {
    !in_dungeon(row, col) || level.cell_at(row, col) == spec_nothing_cell()
}

/// Whether the cell at `row`, `col` holds nothing at all, a spot outside
/// the dungeon counting as holding nothing.
fn is_no_feature_at(row: i64, col: i64, level: &Level) -> (r: bool)
    requires
        level.wf(),
    ensures
        r == spec_no_feature(*level, row as int, col as int),
{
    if row < 0 || row >= DROWS as i64 || col < 0 || col >= DCOLS as i64 {
        true
    } else {
        level.dungeon[row as usize].get(col as usize).is_nothing()
    }
}

/// What a monster's moves depend on besides the level and the monsters:
/// where the rogue stands and the spots that hold a scroll of scare
/// monster.
pub struct MonsterContext {
    pub rogue: DungeonSpot,
    pub scare_spots: Vec<DungeonSpot>,
}

/// Whether monster `mon_id` can step to `row`, `col`: one step at most,
/// not across a corner of empty rock, onto a passable cell with no monster,
/// not diagonally into or out of a doorway, not away from the rogue unless
/// it has a target or may move any way (flitting, confused, or
/// `allow_any_direction`), and not onto a scroll of scare monster.
pub open spec fn spec_mon_can_go(
    level: Level,
    mash: MonsterMash,
    mon_id: MonsterIndex,
    row: int,
    col: int,
    allow_any_direction: bool,
    rogue: DungeonSpot,
    scare_spots: Seq<DungeonSpot>,
) -> bool {
    spec_monster_can_go(level, mash.monsters@[mon_id], row, col, allow_any_direction, rogue, scare_spots)
}

/// Whether the monster `m` can step to `row`, `col`, by the rules that
/// `spec_mon_can_go` lists.
pub open spec fn spec_monster_can_go(
    level: Level,
    m: crate::monster::mash::Monster,
    row: int,
    col: int,
    allow_any_direction: bool,
    rogue: DungeonSpot,
    scare_spots: Seq<DungeonSpot>,
) -> bool {
    let mr = m.spot.row as int;
    let mc = m.spot.col as int;
    &&& -2 < mr - row < 2
    &&& -2 < mc - col < 2
    &&& !spec_no_feature(level, mr, col)
    &&& !spec_no_feature(level, row, mc)
    &&& spec_is_passable(&level, row as i64, col as i64)
    &&& !level.cell_at(row, col).monster
    &&& !(mr != row && mc != col && (level.cell_at(row, col).material is Door || level.cell_at(mr, mc).material is Door))
    &&& !(m.target_spot is None && !(m.m_flags.flits || m.m_flags.confused || allow_any_direction)
        && spec_moves_away(row, col, mr, mc, rogue.row as int, rogue.col as int))
    &&& !scare_spots.contains(DungeonSpot { row: row as i64, col: col as i64 })
}

/// A monster of the roster stands inside the dungeon.
pub open spec fn spec_monster_placed(mash: MonsterMash, mon_id: MonsterIndex) -> bool {
    &&& mash.monsters@.contains_key(mon_id)
    &&& in_dungeon(mash.monsters@[mon_id].spot.row as int, mash.monsters@[mon_id].spot.col as int)
}

/// Whether `spots` holds `spot`.
fn holds_spot(spots: &Vec<DungeonSpot>, spot: DungeonSpot) -> (r: bool)
    ensures
        r == spots@.contains(spot),
{
    let mut i: usize = 0;
    while i < spots.len()
        invariant
            i <= spots@.len(),
            forall|j: int| 0 <= j < i ==> spots@[j] != spot,
        decreases spots@.len() - i,
    {
        if spots[i] == spot {
            return true;
        }
        i += 1;
    }
    false
}

/// Whether monster `mon_id` can step to `row`, `col`.
pub fn mon_can_go_and_reach(
    mon_id: MonsterIndex,
    row: i64,
    col: i64,
    allow_any_direction: bool,
    ctx: &MonsterContext,
    level: &Level,
    mash: &MonsterMash,
) -> (r: bool)
    requires
        level.wf(),
        spec_monster_placed(*mash, mon_id),
        i64::MIN + DCOLS <= row <= i64::MAX - DCOLS,
        i64::MIN + DCOLS <= col <= i64::MAX - DCOLS,
    ensures
        r == spec_mon_can_go(*level, *mash, mon_id, row as int, col as int, allow_any_direction, ctx.rogue, ctx.scare_spots@),
{
    let monster = mash.monster(mon_id);
    let monster_row = monster.spot.row;
    let monster_col = monster.spot.col;
    let delta_rows = monster_row - row;
    let delta_cols = monster_col - col;
    if (delta_rows >= 2) || (delta_rows <= -2) || (delta_cols >= 2) || (delta_cols <= -2) {
        return false;
    }
    if is_no_feature_at(monster_row, col, level) || is_no_feature_at(row, monster_col, level) {
        return false;
    }
    if !is_passable(row, col, level) || level.dungeon[row as usize].get(col as usize).has_monster() {
        return false;
    }
    if (monster_row != row) && (monster_col != col) && (level.dungeon[row as usize].get(col as usize).is_any_door()
        || level.dungeon[monster_row as usize].get(monster_col as usize).is_any_door()) {
        return false;
    }
    let can_move_any_direction = monster.m_flags.flits || monster.m_flags.confused || allow_any_direction;
    if monster.target_spot.is_none() && !can_move_any_direction {
        if a_moves_b_away_from_c((row, col), (monster_row, monster_col), (ctx.rogue.row, ctx.rogue.col)) {
            return false;
        }
    }
    if holds_spot(&ctx.scare_spots, DungeonSpot { row, col }) {
        return false;
    }
    true
}

/// Moves monster `mon_id` to `row`, `col`: the cell it leaves no longer
/// shows a monster, the cell it enters does, and the monster stands there.
pub fn move_mon_to(mon_id: MonsterIndex, row: i64, col: i64, level: &mut Level, mash: &mut MonsterMash)
    requires
        old(level).wf(),
        old(mash).wf(),
        spec_monster_placed(*old(mash), mon_id),
        in_dungeon(row as int, col as int),
    ensures
        final(level).wf(),
        final(mash).wf(),
        final(level).same_but_dungeon(old(level)),
        ({
            let from = old(mash).monsters@[mon_id].spot;
            &&& final(level).cell_at(row as int, col as int) == (crate::level::cells::DungeonCell {
                monster: true,
                ..old(level).cell_at(row as int, col as int)
            })
            &&& !(from.row == row && from.col == col) ==> final(level).cell_at(from.row as int, from.col as int) == (crate::level::cells::DungeonCell {
                monster: false,
                ..old(level).cell_at(from.row as int, from.col as int)
            })
            &&& forall|r: int, c: int|
                in_dungeon(r, c) && !(r == row && c == col) && !(r == from.row && c == from.col) ==> #[trigger] final(level).cell_at(r, c) == old(level).cell_at(r, c)
        }),
        final(mash).monsters@ == old(mash).monsters@.insert(mon_id, crate::monster::mash::Monster {
            spot: DungeonSpot { row, col },
            ..old(mash).monsters@[mon_id]
        }),
        final(mash).m_moves == old(mash).m_moves,
        final(mash).mon_disappeared == old(mash).mon_disappeared,
{
    let from_spot = mash.monster(mon_id).spot;
    let ghost start = *level;
    level.cell_mut(from_spot).set_monster(false);
    let ghost left = *level;
    level.cell_mut(DungeonSpot { row, col }).set_monster(true);
    assert forall|r: int, c: int|
        in_dungeon(r, c) && !(r == row && c == col) && !(r == from_spot.row && c == from_spot.col) implies #[trigger] level.cell_at(r, c) == start.cell_at(r, c) by {
        assert(level.cell_at(r, c) == left.cell_at(r, c));
    }
    mash.monster_mut(mon_id).set_spot(row, col);
}

/// Steps monster `mon_id` to `row`, `col` where it can; returns whether it
/// moved.
pub fn mtry(
    mon_id: MonsterIndex,
    row: i64,
    col: i64,
    allow_any_direction: bool,
    ctx: &MonsterContext,
    level: &mut Level,
    mash: &mut MonsterMash,
) -> (r: bool)
    requires
        old(level).wf(),
        old(mash).wf(),
        spec_monster_placed(*old(mash), mon_id),
        i64::MIN + DCOLS <= row <= i64::MAX - DCOLS,
        i64::MIN + DCOLS <= col <= i64::MAX - DCOLS,
    ensures
        r == spec_mon_can_go(*old(level), *old(mash), mon_id, row as int, col as int, allow_any_direction, ctx.rogue, ctx.scare_spots@),
        !r ==> *final(level) == *old(level) && *final(mash) == *old(mash),
        r ==> final(mash).monsters@ == old(mash).monsters@.insert(mon_id, crate::monster::mash::Monster {
            spot: DungeonSpot { row, col },
            ..old(mash).monsters@[mon_id]
        }),
        final(level).wf(),
        final(mash).wf(),
        final(level).same_but_dungeon(old(level)),
        spec_monster_placed(*final(mash), mon_id),
        final(mash).monsters@.dom() == old(mash).monsters@.dom(),
        final(mash).m_moves == old(mash).m_moves,
        final(mash).mon_disappeared == old(mash).mon_disappeared,
        spec_is_near(final(mash).monsters@[mon_id].spot, old(mash).monsters@[mon_id].spot),
        spec_marks_follow(*old(level), *final(level), old(mash).monsters@[mon_id].spot, final(mash).monsters@[mon_id].spot),
{
    if mon_can_go_and_reach(mon_id, row, col, allow_any_direction, ctx, level, mash) {
        move_mon_to(mon_id, row, col, level, mash);
        assert(mash.monsters@.dom() =~= old(mash).monsters@.dom());
        return true;
    }
    false
}

/// Whether `walk` holds every spot around `row`, `col`, the spot itself
/// included.
pub open spec fn spec_walk_covers(walk: Seq<DungeonSpot>, row: int, col: int) -> bool {
    forall|dr: int, dc: int|
        -1 <= dr <= 1 && -1 <= dc <= 1 ==> #[trigger] spec_walk_holds(walk, row + dr, col + dc)
}

/// The step of `dr` rows and `dc` columns as a pair.
pub open spec fn spec_offset_pair(dr: int, dc: int) -> (i64, i64) {
    (dr as i64, dc as i64)
}

/// Whether `walk` holds the spot `row`, `col`.
pub open spec fn spec_walk_holds(walk: Seq<DungeonSpot>, row: int, col: int) -> bool {
    exists|i: int| 0 <= i < walk.len() && walk[i].row == row && walk[i].col == col
}

/// The spots around `row`, `col`, the spot itself included, each once, in
/// an order left to chance.
pub fn random_walk(row: i64, col: i64) -> (r: [DungeonSpot; 9])
    requires
        i64::MIN + 1 <= row <= i64::MAX - 1,
        i64::MIN + 1 <= col <= i64::MAX - 1,
    ensures
        forall|i: int| 0 <= i < 9 ==> -1 <= (#[trigger] r@[i]).row - row <= 1 && -1 <= r@[i].col - col <= 1,
        spec_walk_covers(r@, row as int, col as int),
{
    let mut offsets: [(i64, i64); 9] = [(-1, -1), (-1, 0), (-1, 1), (0, -1), (0, 0), (0, 1), (1, -1), (1, 0), (1, 1)];
    let ghost start = offsets@;
    proof {
        assert forall|dr: int, dc: int| -1 <= dr <= 1 && -1 <= dc <= 1 implies #[trigger] start.contains(
            spec_offset_pair(dr, dc),
        ) by {
            let k: int = (dr + 1) * 3 + (dc + 1);
            assert(start[k] == spec_offset_pair(dr, dc));
        }
    }
    shuffle_array(&mut offsets);
    proof {
        assert forall|i: int| 0 <= i < 9 implies -1 <= (#[trigger] offsets@[i]).0 <= 1 && -1 <= offsets@[i].1 <= 1 by {
            let x = offsets@[i];
            assert(offsets@.contains(x));
            vstd::seq_lib::to_multiset_contains(offsets@, x);
            vstd::seq_lib::to_multiset_contains(start, x);
        }
        assert forall|dr: int, dc: int| -1 <= dr <= 1 && -1 <= dc <= 1 implies #[trigger] offsets@.contains(
            spec_offset_pair(dr, dc),
        ) by {
            let x = spec_offset_pair(dr, dc);
            assert(start.contains(x));
            vstd::seq_lib::to_multiset_contains(offsets@, x);
            vstd::seq_lib::to_multiset_contains(start, x);
        }
    }
    let mut out: [DungeonSpot; 9] = [DungeonSpot { row, col }; 9];
    let mut i: usize = 0;
    while i < 9
        invariant
            i <= 9,
            i64::MIN + 1 <= row <= i64::MAX - 1,
            i64::MIN + 1 <= col <= i64::MAX - 1,
            forall|j: int| 0 <= j < 9 ==> -1 <= (#[trigger] offsets@[j]).0 <= 1 && -1 <= offsets@[j].1 <= 1,
            forall|j: int| 0 <= j < 9 ==> -1 <= (#[trigger] out@[j]).row - row <= 1 && -1 <= out@[j].col - col <= 1,
            forall|j: int| 0 <= j < i ==> (#[trigger] out@[j]).row == row + offsets@[j].0 && out@[j].col == col + offsets@[j].1,
        decreases 9 - i,
    {
        let (dr, dc) = offsets[i];
        out[i] = DungeonSpot { row: row + dr, col: col + dc };
        i += 1;
    }
    proof {
        assert forall|dr: int, dc: int| -1 <= dr <= 1 && -1 <= dc <= 1 implies #[trigger] spec_walk_holds(
            out@,
            row + dr,
            col + dc,
        ) by {
            assert(offsets@.contains(spec_offset_pair(dr, dc)));
            let k = choose|k: int| 0 <= k < 9 && offsets@[k] == spec_offset_pair(dr, dc);
            assert(out@[k].row == row + dr && out@[k].col == col + dc);
        }
    }
    out
}

/// Whether a flitting monster may land at `row`, `col`: a spot around it,
/// not the rogue's, that it can step to.
pub open spec fn spec_flit_step(
    level: Level,
    mash: MonsterMash,
    mon_id: MonsterIndex,
    allow_any_direction: bool,
    rogue: DungeonSpot,
    scare_spots: Seq<DungeonSpot>,
    row: i64,
    col: i64,
) -> bool {
    &&& spec_is_near(DungeonSpot { row, col }, mash.monsters@[mon_id].spot)
    &&& !(row == rogue.row && col == rogue.col)
    &&& spec_mon_can_go(level, mash, mon_id, row as int, col as int, allow_any_direction, rogue, scare_spots)
}

/// A flitting monster's turn: with a chance of a third it flits; one time
/// in ten it then stays put, and otherwise it steps to the first spot
/// around it, in an order left to chance, that is not the rogue's and that
/// it can reach.  Returns whether the monster flitted (which ends its turn).
pub fn flit(mon_id: MonsterIndex, allow_any_direction: bool, ctx: &MonsterContext, level: &mut Level, mash: &mut MonsterMash) -> (r: bool)
    requires
        old(level).wf(),
        old(mash).wf(),
        spec_monster_placed(*old(mash), mon_id),
    ensures
        final(level).wf(),
        final(mash).wf(),
        final(level).same_but_dungeon(old(level)),
        spec_monster_placed(*final(mash), mon_id),
        final(mash).monsters@.dom() == old(mash).monsters@.dom(),
        final(mash).m_moves == old(mash).m_moves,
        final(mash).mon_disappeared == old(mash).mon_disappeared,
        !r ==> *final(level) == *old(level) && *final(mash) == *old(mash),
        forall|id: MonsterIndex| id != mon_id ==> #[trigger] final(mash).monsters@.contains_key(id) ==> final(mash).monsters@[id] == old(mash).monsters@[id],
        spec_is_near(final(mash).monsters@[mon_id].spot, old(mash).monsters@[mon_id].spot),
        spec_marks_follow(*old(level), *final(level), old(mash).monsters@[mon_id].spot, final(mash).monsters@[mon_id].spot),
        ({
            ||| *final(level) == *old(level) && *final(mash) == *old(mash)
            ||| r && exists|row: i64, col: i64| #[trigger] spec_flit_step(*old(level), *old(mash), mon_id, allow_any_direction, ctx.rogue, ctx.scare_spots@, row, col)
                && final(mash).monsters@ == old(mash).monsters@.insert(mon_id, crate::monster::mash::Monster {
                    spot: DungeonSpot { row, col },
                    ..old(mash).monsters@[mon_id]
                })
        }),
{
    if !rand_percent(FLIT_PERCENT) {
        return false;
    }
    if rand_percent(10) {
        return true;
    }
    let spot = mash.monster(mon_id).spot;
    let walk = random_walk(spot.row, spot.col);
    let mut i: usize = 0;
    while i < 9
        invariant
            i <= 9,
            level.wf(),
            mash.wf(),
            level.same_but_dungeon(old(level)),
            spec_monster_placed(*mash, mon_id),
            mash.monsters@.dom() == old(mash).monsters@.dom(),
            mash.m_moves == old(mash).m_moves,
            in_dungeon(spot.row as int, spot.col as int),
            forall|j: int| 0 <= j < 9 ==> -1 <= (#[trigger] walk@[j]).row - spot.row <= 1 && -1 <= walk@[j].col - spot.col <= 1,
            forall|id: MonsterIndex| id != mon_id ==> #[trigger] mash.monsters@.contains_key(id) ==> mash.monsters@[id] == old(mash).monsters@[id],
            mash.monsters@[mon_id].spot == old(mash).monsters@[mon_id].spot,
            *level == *old(level),
            *mash == *old(mash),
        decreases 9 - i,
    {
        let step = walk[i];
        if step.row == ctx.rogue.row && step.col == ctx.rogue.col {
            i += 1;
            continue;
        }
        if mtry(mon_id, step.row, step.col, allow_any_direction, ctx, level, mash) {
            assert(spec_flit_step(*old(level), *old(mash), mon_id, allow_any_direction, ctx.rogue, ctx.scare_spots@, step.row, step.col));
            return true;
        }
        i += 1;
    }
    true
}

/// A step of one from `from` toward `to`.
pub open spec fn spec_next_closest(from: i64, to: i64) -> i64 {
    if to < from {
        (from - 1) as i64
    } else if to > from {
        (from + 1) as i64
    } else {
        from
    }
}

/// A step of one from `from` toward `to`.
pub fn next_closest(from: i64, to: i64) -> (r: i64)
    requires
        i64::MIN < from < i64::MAX,
    ensures
        r == spec_next_closest(from, to),
{
    if to < from {
        from - 1
    } else if to > from {
        from + 1
    } else {
        from
    }
}

/// Whether the monster at `monster` sees the spot `row`, `col`: both in
/// the same room that is not a maze, or next to each other.
pub open spec fn spec_mon_sees(level: Level, monster: DungeonSpot, row: i64, col: i64) -> bool {
    let rn = crate::level::spec_room_mark(level.rooms@, row, col);
    ||| (rn is Cavern && rn == crate::level::spec_room_mark(level.rooms@, monster.row, monster.col)
        && !(level.rooms@[rn->0 as int].room_type is Maze))
    ||| (-1 <= row - monster.row <= 1 && -1 <= col - monster.col <= 1)
}

/// Whether the monster at `monster` sees the spot `row`, `col`.
pub fn mon_sees(monster: DungeonSpot, row: i64, col: i64, level: &Level) -> (r: bool)
    ensures
        r == spec_mon_sees(*level, monster, row, col),
{
    let rn = level.room(row, col);
    if let crate::room::RoomMark::Cavern(n) = rn {
        if level.room(monster.row, monster.col) == rn && !(level.rooms[n].room_type == crate::room::RoomType::Maze) {
            return true;
        }
    }
    let rdif = row as i128 - monster.row as i128;
    let cdif = col as i128 - monster.col as i128;
    rdif >= -1 && rdif <= 1 && cdif >= -1 && cdif <= 1
}

/// Whether the spot `a` is next to `b` or on it.
pub open spec fn spec_is_near(a: DungeonSpot, b: DungeonSpot) -> bool {
    -1 <= a.row - b.row <= 1 && -1 <= a.col - b.col <= 1
}

/// Whether the rogue at `rogue` stands next to `spot` or on it.
pub fn rogue_is_near(spot: DungeonSpot, rogue: DungeonSpot) -> (r: bool)
    ensures
        r == spec_is_near(spot, rogue),
{
    let rdif = spot.row as i128 - rogue.row as i128;
    let cdif = spot.col as i128 - rogue.col as i128;
    rdif >= -1 && rdif <= 1 && cdif >= -1 && cdif <= 1
}

/// The numbers below `n` in an order left to chance.
pub fn get_rand_indices(n: usize) -> (r: Vec<usize>)
    ensures
        r@.len() == n,
        forall|i: int| 0 <= i < n ==> #[trigger] r@[i] < n,
        r@.to_multiset() == Seq::new(n as nat, |i: int| i as usize).to_multiset(),
{
    let mut v: Vec<usize> = Vec::new();
    let mut i: usize = 0;
    while i < n
        invariant
            i <= n,
            v@ == Seq::new(i as nat, |j: int| j as usize),
        decreases n - i,
    {
        v.push(i);
        assert(v@ =~= Seq::new((i + 1) as nat, |j: int| j as usize));
        i += 1;
    }
    let ghost start = v@;
    crate::random::shuffle_vec(&mut v);
    proof {
        assert forall|i: int| 0 <= i < n implies #[trigger] v@[i] < n by {
            let x = v@[i];
            assert(v@.contains(x));
            vstd::seq_lib::to_multiset_contains(v@, x);
            vstd::seq_lib::to_multiset_contains(start, x);
        }
    }
    v
}

/// Whether the cell at `row`, `col` is a door; a spot outside the dungeon is
/// none.
fn is_door_at(row: i64, col: i64, level: &Level) -> (r: bool)
    requires
        level.wf(),
    ensures
        r == (in_dungeon(row as int, col as int) && level.cell_at(row as int, col as int).material is Door),
{
    if row < 0 || row >= DROWS as i64 || col < 0 || col >= DCOLS as i64 {
        false
    } else {
        level.dungeon[row as usize].get(col as usize).is_any_door()
    }
}

/// A monster's turn hands over to another part of the game where the
/// monster confuses the rogue, hits the rogue, breathes flames or goes for
/// gold; or the turn is over.
#[derive(Debug, Copy, Clone, Eq, PartialEq, Structural)]
pub enum MonsterStep {
    Done,
    Confuse,
    Hit,
    Flames,
    SeekGold,
}

/// What stays true of the level and the monsters through a monster's turn.
pub open spec fn spec_turn_keeps(
    level0: Level,
    mash0: MonsterMash,
    level: Level,
    mash: MonsterMash,
    mon_id: MonsterIndex,
) -> bool {
    &&& level.wf()
    &&& mash.wf()
    &&& level.same_but_dungeon(&level0)
    &&& spec_monster_placed(mash, mon_id)
    &&& mash.monsters@.dom() == mash0.monsters@.dom()
    &&& mash.m_moves == mash0.m_moves
    &&& mash.mon_disappeared == mash0.mon_disappeared
    &&& forall|id: MonsterIndex| id != mon_id ==> #[trigger] mash.monsters@.contains_key(id) ==> mash.monsters@[id] == mash0.monsters@[id]
    &&& spec_is_near(mash.monsters@[mon_id].spot, mash0.monsters@[mon_id].spot)
    &&& spec_marks_follow(level0, level, mash0.monsters@[mon_id].spot, mash.monsters@[mon_id].spot)
}

/// Whether the cells of `level` are those of `level0` with the monster
/// mark moved from `from` to `to`: the cell at `to` shows a monster, the
/// cell at `from` no longer does where the two differ, and every other cell
/// is as it was (where the two are one, that cell keeps its mark or gains
/// it).
pub open spec fn spec_marks_follow(level0: Level, level: Level, from: DungeonSpot, to: DungeonSpot) -> bool {
    &&& forall|r: int, c: int| in_dungeon(r, c) && !(r == to.row && c == to.col) && !(r == from.row && c == from.col)
        ==> #[trigger] level.cell_at(r, c) == level0.cell_at(r, c)
    &&& from != to ==> level.cell_at(to.row as int, to.col as int) == (crate::level::cells::DungeonCell {
        monster: true,
        ..level0.cell_at(to.row as int, to.col as int)
    }) && level.cell_at(from.row as int, from.col as int) == (crate::level::cells::DungeonCell {
        monster: false,
        ..level0.cell_at(from.row as int, from.col as int)
    })
    &&& from == to ==> (level.cell_at(to.row as int, to.col as int) == level0.cell_at(to.row as int, to.col as int)
        || level.cell_at(to.row as int, to.col as int) == (crate::level::cells::DungeonCell {
        monster: true,
        ..level0.cell_at(to.row as int, to.col as int)
    }))
}

/// The monster `m` with its target dropped where it stands on it.
pub open spec fn spec_drop_reached_target(m: crate::monster::mash::Monster) -> crate::monster::mash::Monster {
    if m.target_spot == Some(m.spot) {
        crate::monster::mash::Monster { target_spot: None, ..m }
    } else {
        m
    }
}

/// The spot that the monster `m` heads for: its target, or else `row`, `col`.
pub open spec fn spec_approach_goal(m: crate::monster::mash::Monster, row: i64, col: i64) -> DungeonSpot {
    match m.target_spot {
        Some(t) => t,
        None => DungeonSpot { row, col },
    }
}

/// Whether a door stands at `row`, `col`.
pub open spec fn spec_door_at(level: Level, row: int, col: int) -> bool {
    in_dungeon(row, col) && level.cell_at(row, col).material is Door
}

/// The first of the three spots that a monster `m` tries in a fixed order
/// and can step to: the doorway on row `row1`, the doorway on column `col1`,
/// the spot on both; `None` where it can step to none.
pub open spec fn spec_approach_first(
    level: Level,
    m: crate::monster::mash::Monster,
    row1: i64,
    col1: i64,
    allow_any_direction: bool,
    rogue: DungeonSpot,
    scare_spots: Seq<DungeonSpot>,
) -> Option<DungeonSpot> {
    let s = m.spot;
    if spec_door_at(level, row1 as int, s.col as int)
        && spec_monster_can_go(level, m, row1 as int, s.col as int, allow_any_direction, rogue, scare_spots) {
        Some(DungeonSpot { row: row1, col: s.col })
    } else if spec_door_at(level, s.row as int, col1 as int)
        && spec_monster_can_go(level, m, s.row as int, col1 as int, allow_any_direction, rogue, scare_spots) {
        Some(DungeonSpot { row: s.row, col: col1 })
    } else if spec_monster_can_go(level, m, row1 as int, col1 as int, allow_any_direction, rogue, scare_spots) {
        Some(DungeonSpot { row: row1, col: col1 })
    } else {
        None
    }
}

/// The stuck counter `sc` once the spot `row`, `col` is logged in it.
pub open spec fn spec_logged(sc: StuckCounter, row: i64, col: i64) -> StuckCounter {
    if sc.row == row && sc.col == col {
        StuckCounter { count: (sc.count + 1) as usize, ..sc }
    } else {
        StuckCounter { row, col, count: 0 }
    }
}

/// Whether `level`, `mash` is how monster `mon_id` ends up heading for its
/// target or else `row`, `col` from `level0`, `mash0`: it drops a target it
/// stands on; it steps to the first of its three fixed tries that it can
/// step to, and nothing else changes; where it can step to none, it stays
/// or steps to a spot it can step to, logs its starting spot, and after
/// more than four turns stuck, without a target and without seeing the
/// rogue it takes a target on the screen, else it forgets its target and
/// starts counting afresh.
#[verifier::opaque]
pub open spec fn spec_approached(
    level0: Level,
    mash0: MonsterMash,
    level: Level,
    mash: MonsterMash,
    mon_id: MonsterIndex,
    row: i64,
    col: i64,
    allow_any_direction: bool,
    rogue: DungeonSpot,
    scare_spots: Seq<DungeonSpot>,
) -> bool {
    let m1 = spec_drop_reached_target(mash0.monsters@[mon_id]);
    let goal = spec_approach_goal(m1, row, col);
    let first = spec_approach_first(level0, m1, spec_next_closest(m1.spot.row, goal.row),
        spec_next_closest(m1.spot.col, goal.col), allow_any_direction, rogue, scare_spots);
    let mf = mash.monsters@[mon_id];
    let sc = spec_logged(m1.stuck_counter, m1.spot.row, m1.spot.col);
    let sees = spec_mon_sees(level, mf.spot, rogue.row, rogue.col);
    &&& first is Some ==> mash.monsters@ == mash0.monsters@.insert(mon_id,
        crate::monster::mash::Monster { spot: first->0, ..m1 })
    &&& first is None ==> {
        &&& mf.spot == m1.spot || spec_monster_can_go(level0, m1, mf.spot.row as int, mf.spot.col as int,
            allow_any_direction, rogue, scare_spots)
        &&& sc.count <= 4 ==> mf == crate::monster::mash::Monster { spot: mf.spot, stuck_counter: sc, ..m1 }
        &&& sc.count > 4 && m1.target_spot is None && !sees ==> {
            &&& mf == crate::monster::mash::Monster { spot: mf.spot, stuck_counter: sc, target_spot: mf.target_spot, ..m1 }
            &&& mf.target_spot matches Some(t) && 1 <= t.row <= DROWS - 2 && 0 <= t.col <= DCOLS - 1
        }
        &&& sc.count > 4 && !(m1.target_spot is None && !sees) ==> mf == crate::monster::mash::Monster {
            spot: mf.spot,
            target_spot: None,
            stuck_counter: StuckCounter { count: 0, ..sc },
            ..m1
        }
    }
}

/// The end of a monster's turn, once nothing else has taken it: the monster
/// heads for its target (dropped once reached), or else for `row`, `col`.
/// It tries the doorway a row closer, the doorway a column closer, the spot
/// closer on both, and then the six spots beside those in an order left to
/// chance.  It then counts the turns it has stood at the spot where it
/// began; after more than four, a monster without a target that cannot
/// see the rogue picks a random target, and any other forgets its target
/// and starts counting afresh.
pub fn mv_monster_approach(
    mon_id: MonsterIndex,
    row: i64,
    col: i64,
    allow_any_direction: bool,
    ctx: &MonsterContext,
    level: &mut Level,
    mash: &mut MonsterMash,
)
    requires
        old(level).wf(),
        old(mash).wf(),
        spec_monster_placed(*old(mash), mon_id),
        old(mash).monsters@[mon_id].stuck_counter.count < usize::MAX,
    ensures
        spec_turn_keeps(*old(level), *old(mash), *final(level), *final(mash), mon_id),
        spec_approached(*old(level), *old(mash), *final(level), *final(mash), mon_id, row, col, allow_any_direction, ctx.rogue, ctx.scare_spots@),
{
    mash.monster_mut(mon_id).clear_target_spot_if_reached();
    let target_spot = mash.monster(mon_id).target_spot_or(DungeonSpot { row, col });
    let monster_spot = mash.monster(mon_id).spot;
    let row1 = next_closest(monster_spot.row, target_spot.row);
    let col1 = next_closest(monster_spot.col, target_spot.col);
    let ghost start_level = *level;
    let ghost start_mash = *mash;
    let ghost m1 = mash.monsters@[mon_id];
    let ghost first = spec_approach_first(*old(level), m1, row1, col1, allow_any_direction, ctx.rogue, ctx.scare_spots@);
    assert(m1 == spec_drop_reached_target(old(mash).monsters@[mon_id]));
    assert(start_mash.monsters@ == old(mash).monsters@.insert(mon_id, m1));
    assert(mash.monsters@.dom() =~= old(mash).monsters@.dom());
    if approach_first(mon_id, row1, col1, allow_any_direction, ctx, level, mash) {
        assert(mash.monsters@ =~= old(mash).monsters@.insert(mon_id, crate::monster::mash::Monster { spot: first->0, ..m1 }));
        assert(spec_approached(*old(level), *old(mash), *level, *mash, mon_id, row, col, allow_any_direction, ctx.rogue,
            ctx.scare_spots@)) by {
            reveal(spec_approached);
        }
        return;
    }
    approach_by_chance(mon_id, row1, col1, allow_any_direction, ctx, level, mash);
    assert(mash.monsters@.dom() =~= old(mash).monsters@.dom());
    let sees_rogue = mon_sees(mash.monster(mon_id).spot, ctx.rogue.row, ctx.rogue.col, level);
    let monster = mash.monster_mut(mon_id);
    log_stuck(monster, monster_spot, sees_rogue);
    assert(mash.monsters@.dom() =~= old(mash).monsters@.dom());
    assert(spec_approached(*old(level), *old(mash), *level, *mash, mon_id, row, col, allow_any_direction, ctx.rogue,
        ctx.scare_spots@)) by {
        reveal(spec_approached);
    }
}

/// Tries the six spots beside the three fixed tries (three along row
/// `row1`, three along column `col1`) in an order left to chance, and steps
/// to the first that monster `mon_id` can step to.  The monster ends where
/// it stood or on a spot it could step to, and is otherwise unchanged.
fn approach_by_chance(
    mon_id: MonsterIndex,
    row1: i64,
    col1: i64,
    allow_any_direction: bool,
    ctx: &MonsterContext,
    level: &mut Level,
    mash: &mut MonsterMash,
)
    requires
        old(level).wf(),
        old(mash).wf(),
        spec_monster_placed(*old(mash), mon_id),
        -1 <= row1 - old(mash).monsters@[mon_id].spot.row <= 1,
        -1 <= col1 - old(mash).monsters@[mon_id].spot.col <= 1,
    ensures
        spec_turn_keeps(*old(level), *old(mash), *final(level), *final(mash), mon_id),
        ({
            let m = old(mash).monsters@[mon_id];
            let mf = final(mash).monsters@[mon_id];
            &&& mf == (crate::monster::mash::Monster { spot: mf.spot, ..m })
            &&& mf.spot == m.spot || spec_monster_can_go(*old(level), m, mf.spot.row as int, mf.spot.col as int,
                allow_any_direction, ctx.rogue, ctx.scare_spots@)
        }),
{
    let ghost m1 = mash.monsters@[mon_id];
    let monster_spot = mash.monster(mon_id).spot;
    let kinds = get_rand_indices(6);
    let mut i: usize = 0;
    assert(mash.monsters@.dom() =~= old(mash).monsters@.dom());
    while i < 6
        invariant_except_break
            *level == *old(level),
            *mash == *old(mash),
        invariant
            mash.monsters@[mon_id] == (crate::monster::mash::Monster { spot: mash.monsters@[mon_id].spot, ..m1 }),
            mash.monsters@[mon_id].spot == m1.spot || spec_monster_can_go(*old(level), m1, mash.monsters@[mon_id].spot.row as int,
                mash.monsters@[mon_id].spot.col as int, allow_any_direction, ctx.rogue, ctx.scare_spots@),
            old(mash).monsters@[mon_id] == m1,
            m1.spot == monster_spot,
            i <= 6,
            kinds@.len() == 6,
            in_dungeon(monster_spot.row as int, monster_spot.col as int),
            -1 <= row1 - monster_spot.row <= 1,
            -1 <= col1 - monster_spot.col <= 1,
            spec_turn_keeps(*old(level), *old(mash), *level, *mash, mon_id),
        decreases 6 - i,
    {
        let kind = kinds[i];
        let moved = match kind {
            0 => mtry(mon_id, row1, monster_spot.col - 1, allow_any_direction, ctx, level, mash),
            1 => mtry(mon_id, row1, monster_spot.col, allow_any_direction, ctx, level, mash),
            2 => mtry(mon_id, row1, monster_spot.col + 1, allow_any_direction, ctx, level, mash),
            3 => mtry(mon_id, monster_spot.row - 1, col1, allow_any_direction, ctx, level, mash),
            4 => mtry(mon_id, monster_spot.row, col1, allow_any_direction, ctx, level, mash),
            _ => mtry(mon_id, monster_spot.row + 1, col1, allow_any_direction, ctx, level, mash),
        };
        if moved {
            break;
        }
        i += 1;
    }
}

/// Tries, in order, the doorway a row closer (`row1`), the doorway a column
/// closer (`col1`) and the spot closer on both, and steps to the first that
/// monster `mon_id` can step to.  Returns whether it stepped.
fn approach_first(
    mon_id: MonsterIndex,
    row1: i64,
    col1: i64,
    allow_any_direction: bool,
    ctx: &MonsterContext,
    level: &mut Level,
    mash: &mut MonsterMash,
) -> (r: bool)
    requires
        old(level).wf(),
        old(mash).wf(),
        spec_monster_placed(*old(mash), mon_id),
        -1 <= row1 - old(mash).monsters@[mon_id].spot.row <= 1,
        -1 <= col1 - old(mash).monsters@[mon_id].spot.col <= 1,
    ensures
        spec_turn_keeps(*old(level), *old(mash), *final(level), *final(mash), mon_id),
        ({
            let m = old(mash).monsters@[mon_id];
            let first = spec_approach_first(*old(level), m, row1, col1, allow_any_direction, ctx.rogue, ctx.scare_spots@);
            &&& r == first is Some
            &&& r ==> final(mash).monsters@ == old(mash).monsters@.insert(mon_id,
                crate::monster::mash::Monster { spot: first->0, ..m })
            &&& !r ==> *final(level) == *old(level) && *final(mash) == *old(mash)
        }),
{
    let ghost m = mash.monsters@[mon_id];
    let ghost first = spec_approach_first(*old(level), m, row1, col1, allow_any_direction, ctx.rogue, ctx.scare_spots@);
    let monster_spot = mash.monster(mon_id).spot;
    assert(mash.monsters@.dom() =~= old(mash).monsters@.dom());
    if is_door_at(row1, monster_spot.col, level) && mtry(mon_id, row1, monster_spot.col, allow_any_direction, ctx, level, mash) {
        assert(first == Some(DungeonSpot { row: row1, col: monster_spot.col }));
        return true;
    }
    if is_door_at(monster_spot.row, col1, level) && mtry(mon_id, monster_spot.row, col1, allow_any_direction, ctx, level, mash) {
        assert(first == Some(DungeonSpot { row: monster_spot.row, col: col1 }));
        return true;
    }
    if mtry(mon_id, row1, col1, allow_any_direction, ctx, level, mash) {
        assert(first == Some(DungeonSpot { row: row1, col: col1 }));
        return true;
    }
    false
}

/// Logs the spot `start` in the monster's stuck counter; after more than
/// four turns there, a monster without a target that does not see the rogue
/// picks a random target, and any other forgets its target and starts
/// counting afresh.
fn log_stuck(monster: &mut crate::monster::mash::Monster, start: DungeonSpot, sees_rogue: bool)
    requires
        old(monster).stuck_counter.count < usize::MAX,
    ensures
        ({
            let m = *old(monster);
            let mf = *final(monster);
            let sc = spec_logged(m.stuck_counter, start.row, start.col);
            &&& sc.count <= 4 ==> mf == crate::monster::mash::Monster { stuck_counter: sc, ..m }
            &&& sc.count > 4 && m.target_spot is None && !sees_rogue ==> {
                &&& mf == crate::monster::mash::Monster { stuck_counter: sc, target_spot: mf.target_spot, ..m }
                &&& mf.target_spot matches Some(t) && 1 <= t.row <= DROWS - 2 && 0 <= t.col <= DCOLS - 1
            }
            &&& sc.count > 4 && !(m.target_spot is None && !sees_rogue) ==> mf == crate::monster::mash::Monster {
                target_spot: None,
                stuck_counter: StuckCounter { count: 0, ..sc },
                ..m
            }
        }),
{
    monster.stuck_counter.log_row_col(start.row, start.col);
    if monster.stuck_counter.count > 4 {
        let no_target = monster.target_spot.is_none();
        if no_target && !sees_rogue {
            let r = get_rand(1, (DROWS - 2) as i64);
            let c = get_rand(0, (DCOLS - 1) as i64);
            monster.set_target_spot(r, c);
        } else {
            monster.clear_target_reset_stuck();
        }
    }
}

/// Carries on with monster `mon_id`'s turn after the step `after`, which
/// another part of the game handled without ending the turn: after
/// confusing, a monster that can reach the rogue hits it; after that a
/// monster that breathes flames does so; then a monster that goes for gold
/// does so; then it heads for its target or `row`, `col`.  Returns the next
/// step for another part of the game, or `Done` once the monster has moved.
pub fn mv_monster_resume(
    after: MonsterStep,
    mon_id: MonsterIndex,
    row: i64,
    col: i64,
    allow_any_direction: bool,
    ctx: &MonsterContext,
    level: &mut Level,
    mash: &mut MonsterMash,
) -> (r: MonsterStep)
    requires
        old(level).wf(),
        old(mash).wf(),
        spec_monster_placed(*old(mash), mon_id),
        old(mash).monsters@[mon_id].stuck_counter.count < usize::MAX,
        i64::MIN + DCOLS <= ctx.rogue.row <= i64::MAX - DCOLS,
        i64::MIN + DCOLS <= ctx.rogue.col <= i64::MAX - DCOLS,
    ensures
        spec_turn_keeps(*old(level), *old(mash), *final(level), *final(mash), mon_id),
        !(r is Done) ==> *final(level) == *old(level) && *final(mash) == *old(mash),
        ({
            let f = old(mash).monsters@[mon_id].m_flags;
            let reach = spec_mon_can_go(*old(level), *old(mash), mon_id, ctx.rogue.row as int, ctx.rogue.col as int,
                allow_any_direction, ctx.rogue, ctx.scare_spots@);
            &&& after is Confuse ==> (r is Hit <==> reach)
            &&& (after is Confuse && !reach) || after is Hit ==> (r is Flames <==> f.flames)
            &&& ((after is Confuse && !reach) || after is Hit) && !f.flames || after is Flames ==> (r is SeekGold <==> f.seeks_gold)
            &&& !(r is Confuse)
            &&& after is SeekGold ==> r is Done
            &&& ((((after is Confuse && !reach) || after is Hit) && !f.flames || after is Flames) && !f.seeks_gold
                || after is SeekGold) ==> spec_approached(*old(level), *old(mash), *final(level), *final(mash), mon_id, row, col,
                allow_any_direction, ctx.rogue, ctx.scare_spots@)
        }),
{
    if after == MonsterStep::Confuse {
        if mon_can_go_and_reach(mon_id, ctx.rogue.row, ctx.rogue.col, allow_any_direction, ctx, level, mash) {
            return MonsterStep::Hit;
        }
    }
    if after == MonsterStep::Confuse || after == MonsterStep::Hit {
        if mash.monster(mon_id).m_flags.flames {
            return MonsterStep::Flames;
        }
    }
    if after == MonsterStep::Confuse || after == MonsterStep::Hit || after == MonsterStep::Flames {
        if mash.monster(mon_id).m_flags.seeks_gold {
            return MonsterStep::SeekGold;
        }
    }
    mv_monster_approach(mon_id, row, col, allow_any_direction, ctx, level, mash);
    MonsterStep::Done
}

/// The monster `m` after one turn of its nap: the nap is one turn
/// shorter, and once it runs out the monster no longer naps or sleeps.
pub open spec fn spec_napped(m: crate::monster::mash::Monster) -> crate::monster::mash::Monster {
    crate::monster::mash::Monster {
        nap_length: (m.nap_length - 1) as isize,
        m_flags: if m.nap_length - 1 <= 0 {
            crate::monster::flags::MonsterFlags { napping: false, asleep: false, ..m.m_flags }
        } else {
            m.m_flags
        },
        ..m
    }
}

/// Whether `after` is the sleeping monster `m` after its turn: a napping
/// monster naps on; another stays as it was or wakes, and stays as it was
/// unless it wakes to the rogue and the rogue at `rogue` is next to it.
pub open spec fn spec_slept(m: crate::monster::mash::Monster, after: crate::monster::mash::Monster, rogue: DungeonSpot) -> bool {
    &&& m.m_flags.napping ==> after == spec_napped(m)
    &&& !m.m_flags.napping ==> (after == m || after == (crate::monster::mash::Monster {
        m_flags: crate::monster::flags::spec_woken(m.m_flags),
        ..m
    }))
    &&& !m.m_flags.napping && !(m.m_flags.wakens && spec_is_near(m.spot, rogue)) ==> after == m
}

/// A sleeping monster's turn: a napping monster naps on (and wakes when its
/// nap runs out); another that wakes to the rogue, with the rogue next to
/// it, wakes with a chance of `wake_percent`.
fn sleep_turn(mon_id: MonsterIndex, wake_percent: i64, ctx: &MonsterContext, mash: &mut MonsterMash)
    requires
        old(mash).wf(),
        spec_monster_placed(*old(mash), mon_id),
        old(mash).monsters@[mon_id].nap_length > isize::MIN,
    ensures
        final(mash).wf(),
        final(mash).monsters@.dom() == old(mash).monsters@.dom(),
        final(mash).m_moves == old(mash).m_moves,
        final(mash).mon_disappeared == old(mash).mon_disappeared,
        ({
            let m = old(mash).monsters@[mon_id];
            let after = final(mash).monsters@[mon_id];
            &&& final(mash).monsters@ == old(mash).monsters@.insert(mon_id, after)
            &&& after.spot == m.spot
            &&& after.id == m.id
            &&& spec_slept(m, after, ctx.rogue)
        }),
{
    let flags = mash.monster(mon_id).m_flags;
    if flags.napping {
        mash.monster_mut(mon_id).do_nap();
        return;
    }
    let spot = mash.monster(mon_id).spot;
    if flags.wakens && rogue_is_near(spot, ctx.rogue) && rand_percent(wake_percent) {
        mash.monster_mut(mon_id).wake_up();
    }
    assert(mash.monsters@ =~= old(mash).monsters@.insert(mon_id, mash.monsters@[mon_id]));
}

/// The start of monster `mon_id`'s turn for a monster that sleeps or has
/// already moved, which ends the turn; returns whether it did.  A sleeping
/// monster takes its turn as `sleep_turn` says; a monster that has already
/// moved is marked ready again.
fn start_turn(mon_id: MonsterIndex, wake_percent: i64, ctx: &MonsterContext, mash: &mut MonsterMash) -> (done: bool)
    requires
        old(mash).wf(),
        spec_monster_placed(*old(mash), mon_id),
        old(mash).monsters@[mon_id].nap_length > isize::MIN,
    ensures
        final(mash).wf(),
        spec_monster_placed(*final(mash), mon_id),
        final(mash).monsters@.dom() == old(mash).monsters@.dom(),
        final(mash).m_moves == old(mash).m_moves,
        forall|id: MonsterIndex| id != mon_id ==> #[trigger] final(mash).monsters@.contains_key(id) ==> final(mash).monsters@[id] == old(mash).monsters@[id],
        done == (old(mash).monsters@[mon_id].m_flags.asleep || old(mash).monsters@[mon_id].m_flags.already_moved),
        final(mash).monsters@[mon_id].spot == old(mash).monsters@[mon_id].spot,
        !done ==> *final(mash) == *old(mash),
        !old(mash).monsters@[mon_id].m_flags.asleep && old(mash).monsters@[mon_id].m_flags.already_moved ==> final(mash).monsters@[mon_id] == (crate::monster::mash::Monster {
            m_flags: crate::monster::flags::spec_ready_again(old(mash).monsters@[mon_id].m_flags),
            ..old(mash).monsters@[mon_id]
        }),
        old(mash).monsters@[mon_id].m_flags.asleep ==> spec_slept(old(mash).monsters@[mon_id], final(mash).monsters@[mon_id], ctx.rogue),
        final(mash).mon_disappeared == old(mash).mon_disappeared,
{
    let flags = mash.monster(mon_id).m_flags;
    if flags.asleep {
        sleep_turn(mon_id, wake_percent, ctx, mash);
        return true;
    } else if flags.already_moved {
        mash.monster_mut(mon_id).m_flags.ready_again();
        assert(mash.monsters@.dom() =~= old(mash).monsters@.dom());
        return true;
    }
    false
}

/// Whether an awake monster `mon_id` that has not moved yet, and does not
/// flit, ends its turn heading for its target: it is not a stationary one
/// that cannot reach the rogue, it does not hold the rogue frozen, it does
/// not confuse, it cannot reach the rogue, and it neither breathes flames
/// nor goes for gold.
pub open spec fn spec_turn_approaches(
    level: Level,
    mash: MonsterMash,
    mon_id: MonsterIndex,
    allow_any_direction: bool,
    rogue: DungeonSpot,
    scare_spots: Seq<DungeonSpot>,
) -> bool {
    let f = mash.monsters@[mon_id].m_flags;
    let reach = spec_mon_can_go(level, mash, mon_id, rogue.row as int, rogue.col as int, allow_any_direction, rogue, scare_spots);
    !f.stationary && !f.freezing_rogue && !f.confuses && !reach && !f.flames && !f.seeks_gold
}

/// How the turn of an awake monster `mon_id` that has not moved yet goes
/// on, once flitting has not taken it: a stationary monster that cannot
/// reach the rogue, or one that holds the rogue frozen, is done; one that
/// confuses hands over to confusing; then one that can reach the rogue hits
/// it, one that breathes flames does so, one that goes for gold does so,
/// and any other is done once it has headed for its target.
pub open spec fn spec_turn_step(
    level: Level,
    mash: MonsterMash,
    mon_id: MonsterIndex,
    allow_any_direction: bool,
    rogue: DungeonSpot,
    scare_spots: Seq<DungeonSpot>,
) -> MonsterStep {
    let f = mash.monsters@[mon_id].m_flags;
    let reach = spec_mon_can_go(level, mash, mon_id, rogue.row as int, rogue.col as int, allow_any_direction, rogue, scare_spots);
    if f.stationary && !reach {
        MonsterStep::Done
    } else if f.freezing_rogue {
        MonsterStep::Done
    } else if f.confuses {
        MonsterStep::Confuse
    } else if reach {
        MonsterStep::Hit
    } else if f.flames {
        MonsterStep::Flames
    } else if f.seeks_gold {
        MonsterStep::SeekGold
    } else {
        MonsterStep::Done
    }
}

/// Monster `mon_id`'s turn.  A monster that sleeps or has already moved
/// ends its turn as `start_turn` says.  A flitting monster may flit, a
/// stationary one that cannot reach the rogue stays, and a monster that
/// holds the rogue frozen does nothing more; each ends the turn.  A
/// confusing monster hands over to confusing the rogue; any other carries
/// on as `mv_monster_resume` does after confusing.
pub fn mv_monster(
    mon_id: MonsterIndex,
    row: i64,
    col: i64,
    allow_any_direction: bool,
    wake_percent: i64,
    ctx: &MonsterContext,
    level: &mut Level,
    mash: &mut MonsterMash,
) -> (r: MonsterStep)
    requires
        old(level).wf(),
        old(mash).wf(),
        spec_monster_placed(*old(mash), mon_id),
        old(mash).monsters@[mon_id].stuck_counter.count < usize::MAX,
        old(mash).monsters@[mon_id].nap_length > isize::MIN,
        i64::MIN + DCOLS <= ctx.rogue.row <= i64::MAX - DCOLS,
        i64::MIN + DCOLS <= ctx.rogue.col <= i64::MAX - DCOLS,
    ensures
        spec_turn_keeps(*old(level), *old(mash), *final(level), *final(mash), mon_id),
        ({
            let m = old(mash).monsters@[mon_id];
            let step = spec_turn_step(*old(level), *old(mash), mon_id, allow_any_direction, ctx.rogue, ctx.scare_spots@);
            &&& (m.m_flags.asleep || m.m_flags.already_moved) ==> r is Done && *final(level) == *old(level)
            &&& m.m_flags.asleep ==> final(mash).monsters@ == old(mash).monsters@.insert(mon_id, final(mash).monsters@[mon_id])
                && spec_slept(m, final(mash).monsters@[mon_id], ctx.rogue)
            &&& !m.m_flags.asleep && m.m_flags.already_moved ==> final(mash).monsters@ == old(mash).monsters@.insert(mon_id,
                crate::monster::mash::Monster { m_flags: crate::monster::flags::spec_ready_again(m.m_flags), ..m })
            &&& !m.m_flags.asleep && !m.m_flags.already_moved ==> {
                &&& r == step || (m.m_flags.flits && r is Done)
                &&& !(r is Done) ==> *final(level) == *old(level) && *final(mash) == *old(mash)
                &&& !m.m_flags.flits && r is Done && !spec_turn_approaches(*old(level), *old(mash), mon_id, allow_any_direction,
                    ctx.rogue, ctx.scare_spots@) ==> *final(level) == *old(level) && *final(mash) == *old(mash)
                &&& !m.m_flags.flits && spec_turn_approaches(*old(level), *old(mash), mon_id, allow_any_direction, ctx.rogue,
                    ctx.scare_spots@) ==> spec_approached(*old(level), *old(mash), *final(level), *final(mash), mon_id, row, col,
                    allow_any_direction, ctx.rogue, ctx.scare_spots@)
                &&& m.m_flags.flits && r is Done ==> ({
                    ||| *final(level) == *old(level) && *final(mash) == *old(mash)
                    ||| spec_turn_approaches(*old(level), *old(mash), mon_id, allow_any_direction, ctx.rogue, ctx.scare_spots@)
                        && spec_approached(*old(level), *old(mash), *final(level), *final(mash), mon_id, row, col,
                        allow_any_direction, ctx.rogue, ctx.scare_spots@)
                    ||| exists|row: i64, col: i64| #[trigger] spec_flit_step(*old(level), *old(mash), mon_id, allow_any_direction,
                        ctx.rogue, ctx.scare_spots@, row, col)
                        && final(mash).monsters@ == old(mash).monsters@.insert(mon_id, crate::monster::mash::Monster {
                            spot: DungeonSpot { row, col },
                            ..old(mash).monsters@[mon_id]
                        })
                })
            }
        }),
{
    if start_turn(mon_id, wake_percent, ctx, mash) {
        return MonsterStep::Done;
    }
    let flags = mash.monster(mon_id).m_flags;
    if flags.flits && flit(mon_id, allow_any_direction, ctx, level, mash) {
        return MonsterStep::Done;
    }
    if flags.stationary && !mon_can_go_and_reach(mon_id, ctx.rogue.row, ctx.rogue.col, allow_any_direction, ctx, level, mash) {
        return MonsterStep::Done;
    }
    if flags.freezing_rogue {
        return MonsterStep::Done;
    }
    if flags.confuses {
        return MonsterStep::Confuse;
    }
    mv_monster_resume(MonsterStep::Confuse, mon_id, row, col, allow_any_direction, ctx, level, mash)
}

/// How many turns monster `m` takes in a round of monster turns: a hasted
/// monster two, a slowed one every other round (one when its toggle is
/// set, which it then clears, none when it is clear, which it then sets),
/// any other one.
pub open spec fn spec_turns_of(m: crate::monster::mash::Monster) -> usize {
    if m.m_flags.hasted {
        2
    } else if m.m_flags.slowed {
        if m.slowed_toggle { 1 } else { 0 }
    } else {
        1
    }
}

/// Monster `m` once its round of turns is counted: a slowed monster that
/// is not hasted has its toggle flipped.
pub open spec fn spec_counted(m: crate::monster::mash::Monster) -> crate::monster::mash::Monster {
    if !m.m_flags.hasted && m.m_flags.slowed {
        crate::monster::mash::Monster { slowed_toggle: !m.slowed_toggle, ..m }
    } else {
        m
    }
}

/// The monsters' turns in a round: none while the rogue's haste count
/// `haste_self` is odd (a hasted rogue gets a round of its own), else each
/// monster once in the list with the number of turns it takes, which
/// `spec_turns_of` gives; slowed monsters have their toggle flipped.
pub fn monster_turns(haste_self: isize, mash: &mut MonsterMash) -> (r: Vec<(MonsterIndex, usize)>)
    requires
        old(mash).wf(),
    ensures
        final(mash).wf(),
        final(mash).m_moves == old(mash).m_moves,
        final(mash).mon_disappeared == old(mash).mon_disappeared,
        final(mash).monsters@.dom() == old(mash).monsters@.dom(),
        haste_self % 2 != 0 ==> r@.len() == 0 && *final(mash) == *old(mash),
        haste_self % 2 == 0 ==> {
            &&& r@.len() == old(mash).monsters@.dom().len()
            &&& forall|i: int| 0 <= i < r@.len() ==> old(mash).monsters@.contains_key((#[trigger] r@[i]).0)
                && r@[i].1 == spec_turns_of(old(mash).monsters@[r@[i].0])
            &&& forall|i: int, j: int| 0 <= i < j < r@.len() ==> (#[trigger] r@[i]).0 != (#[trigger] r@[j]).0
            &&& forall|id: MonsterIndex| #[trigger] old(mash).monsters@.contains_key(id)
                ==> final(mash).monsters@[id] == spec_counted(old(mash).monsters@[id])
        },
{
    let mut out: Vec<(MonsterIndex, usize)> = Vec::new();
    if haste_self % 2 != 0 {
        return out;
    }
    let ids = mash.monster_ids();
    proof {
        ids@.unique_seq_to_set();
    }
    let mut i: usize = 0;
    while i < ids.len()
        invariant
            i <= ids@.len(),
            ids@.to_set() == old(mash).monsters@.dom(),
            ids@.no_duplicates(),
            ids@.len() == old(mash).monsters@.dom().len(),
            mash.wf(),
            mash.m_moves == old(mash).m_moves,
            mash.mon_disappeared == old(mash).mon_disappeared,
            mash.monsters@.dom() == old(mash).monsters@.dom(),
            out@.len() == i,
            forall|j: int| 0 <= j < i ==> (#[trigger] out@[j]).0 == ids@[j]
                && out@[j].1 == spec_turns_of(old(mash).monsters@[ids@[j]]),
            forall|j: int| 0 <= j < i ==> mash.monsters@[#[trigger] ids@[j]] == spec_counted(old(mash).monsters@[ids@[j]]),
            forall|j: int| i <= j < ids@.len() ==> mash.monsters@[#[trigger] ids@[j]] == old(mash).monsters@[ids@[j]],
        decreases ids@.len() - i,
    {
        let id = ids[i];
        assert(ids@.to_set().contains(ids@[i as int]));
        let ghost before = *mash;
        let monster = mash.monster_mut(id);
        let turns: usize = if monster.m_flags.hasted {
            2
        } else if monster.m_flags.slowed {
            monster.slowed_toggle = !monster.slowed_toggle;
            if monster.slowed_toggle { 0 } else { 1 }
        } else {
            1
        };
        out.push((id, turns));
        proof {
            assert(mash.monsters@.dom() =~= old(mash).monsters@.dom());
            assert forall|j: int| 0 <= j < ids@.len() && j != i implies mash.monsters@[#[trigger] ids@[j]] == before.monsters@[ids@[j]] by {
                assert(ids@[j] != ids@[i as int]);
            }
            assert forall|k: MonsterIndex| #[trigger] mash.monsters@.contains_key(k) implies mash.monsters@[k].id == k by {
                if k != id {
                    assert(mash.monsters@[k] == before.monsters@[k]);
                }
            }
        }
        i += 1;
    }
    proof {
        assert forall|id: MonsterIndex| #[trigger] old(mash).monsters@.contains_key(id)
            implies mash.monsters@[id] == spec_counted(old(mash).monsters@[id]) by {
            assert(ids@.to_set().contains(id));
            let j = ids@.index_of(id);
            assert(mash.monsters@[ids@[j]] == spec_counted(old(mash).monsters@[ids@[j]]));
        }
        assert forall|a: int, b: int| 0 <= a < b < out@.len() implies (#[trigger] out@[a]).0 != (#[trigger] out@[b]).0 by {
            assert(out@[a].0 == ids@[a] && out@[b].0 == ids@[b]);
        }
        assert forall|a: int| 0 <= a < out@.len() implies old(mash).monsters@.contains_key((#[trigger] out@[a]).0)
            && out@[a].1 == spec_turns_of(old(mash).monsters@[out@[a].0]) by {
            assert(out@[a].0 == ids@[a]);
            assert(ids@.to_set().contains(ids@[a]));
        }
    }
    out
}

/// Whether monster `mon_id` takes a flight before its move in a round: a
/// flying monster that is not napping and cannot reach the rogue.
pub fn flies_first(mon_id: MonsterIndex, ctx: &MonsterContext, level: &Level, mash: &MonsterMash) -> (r: bool)
    requires
        level.wf(),
        spec_monster_placed(*mash, mon_id),
        i64::MIN + DCOLS <= ctx.rogue.row <= i64::MAX - DCOLS,
        i64::MIN + DCOLS <= ctx.rogue.col <= i64::MAX - DCOLS,
    ensures
        r == (mash.monsters@[mon_id].m_flags.flies && !mash.monsters@[mon_id].m_flags.napping
            && !spec_mon_can_go(*level, *mash, mon_id, ctx.rogue.row as int, ctx.rogue.col as int, false, ctx.rogue,
            ctx.scare_spots@)),
{
    let flags = mash.monster(mon_id).m_flags;
    flags.flies && !flags.napping && !mon_can_go_and_reach(mon_id, ctx.rogue.row, ctx.rogue.col, false, ctx, level, mash)
}

/// Whether monster `mon_id` takes its move of a round after a flight
/// (`flew`): always, but where the flight brought it within reach of the
/// rogue.
pub fn moves_after_flight(flew: bool, mon_id: MonsterIndex, ctx: &MonsterContext, level: &Level, mash: &MonsterMash) -> (r: bool)
    requires
        level.wf(),
        spec_monster_placed(*mash, mon_id),
        i64::MIN + DCOLS <= ctx.rogue.row <= i64::MAX - DCOLS,
        i64::MIN + DCOLS <= ctx.rogue.col <= i64::MAX - DCOLS,
    ensures
        r == !(flew && spec_mon_can_go(*level, *mash, mon_id, ctx.rogue.row as int, ctx.rogue.col as int, false, ctx.rogue,
            ctx.scare_spots@)),
{
    !(flew && mon_can_go_and_reach(mon_id, ctx.rogue.row, ctx.rogue.col, false, ctx, level, mash))
}

/// Whether a hasted monster takes its second turn of a round: not once
/// its first turn took it off the level (`mon_disappeared`).
pub fn hasted_goes_on(mash: &MonsterMash) -> (r: bool)
    ensures
        r == !mash.mon_disappeared,
{
    !mash.mon_disappeared
}

/// A confused monster's move: a monster that is awake has its confusion
/// shortened; a stationary one then stays put on a coin toss (the move
/// counts as made either way), another one stays put with a chance of 15
/// percent, and otherwise steps to the first spot around it, in an order
/// left to chance, that it can reach, giving up where that order comes to
/// the rogue's spot first.  Returns whether the move counts as made.
pub fn move_confused(mon_id: MonsterIndex, force_flit: bool, ctx: &MonsterContext, level: &mut Level, mash: &mut MonsterMash) -> (r: bool)
    requires
        old(level).wf(),
        old(mash).wf(),
        spec_monster_placed(*old(mash), mon_id),
        old(mash).monsters@[mon_id].moves_confused > isize::MIN,
    ensures
        spec_turn_keeps(*old(level), *old(mash), *final(level), *final(mash), mon_id),
        old(mash).monsters@[mon_id].m_flags.asleep ==> !r && *final(level) == *old(level) && *final(mash) == *old(mash),
        !old(mash).monsters@[mon_id].m_flags.asleep ==> final(mash).monsters@[mon_id].moves_confused == old(mash).monsters@[mon_id].moves_confused - 1,
{
    if !mash.monster(mon_id).m_flags.asleep {
        mash.monster_mut(mon_id).decrement_moves_confused();
        assert(mash.monsters@.dom() =~= old(mash).monsters@.dom());
        if mash.monster(mon_id).m_flags.stationary {
            return coin_toss_moved();
        } else if rand_percent(15) {
            return true;
        } else {
            let spot = mash.monster(mon_id).spot;
            let confused_count = mash.monster(mon_id).moves_confused;
            let walk = random_walk(spot.row, spot.col);
            let mut i: usize = 0;
            while i < 9
                invariant
                    i <= 9,
                    in_dungeon(spot.row as int, spot.col as int),
                    forall|j: int| 0 <= j < 9 ==> -1 <= (#[trigger] walk@[j]).row - spot.row <= 1 && -1 <= walk@[j].col - spot.col <= 1,
                    spec_turn_keeps(*old(level), *old(mash), *level, *mash, mon_id),
                    mash.monsters@[mon_id].moves_confused == confused_count,
                    confused_count == old(mash).monsters@[mon_id].moves_confused - 1,
                    !old(mash).monsters@[mon_id].m_flags.asleep,
                    mash.monsters@[mon_id].spot == old(mash).monsters@[mon_id].spot,
                decreases 9 - i,
            {
                let step = walk[i];
                if step.row == ctx.rogue.row && step.col == ctx.rogue.col {
                    return false;
                }
                if mtry(mon_id, step.row, step.col, force_flit, ctx, level, mash) {
                    return true;
                }
                i += 1;
            }
        }
    }
    false
}

/// A coin toss.
fn coin_toss_moved() -> bool {
    crate::random::coin_toss()
}

/// Whether every floor cell of room `rn` (its rectangle without the walls)
/// already holds a monster.
pub fn no_spot_for_monster(rn: usize, level: &Level) -> (r: bool)
    requires
        level.wf(),
        rn < crate::constants::MAX_ROOM,
        crate::level::dig::spec_room_in_dungeon(level.rooms@[rn as int]),
    ensures
        r == (forall|row: int, col: int|
            level.rooms@[rn as int].top_row < row < level.rooms@[rn as int].bottom_row
                && level.rooms@[rn as int].left_col < col < level.rooms@[rn as int].right_col
                ==> (#[trigger] level.cell_at(row, col)).monster),
{
    let room = &level.rooms[rn];
    let floor_bounds = room.to_floor_bounds();
    let mut row = floor_bounds.top;
    while row <= floor_bounds.bottom
        invariant
            level.wf(),
            rn < crate::constants::MAX_ROOM,
            crate::level::dig::spec_room_in_dungeon(level.rooms@[rn as int]),
            floor_bounds.top == level.rooms@[rn as int].top_row + 1,
            floor_bounds.bottom == level.rooms@[rn as int].bottom_row - 1,
            floor_bounds.left == level.rooms@[rn as int].left_col + 1,
            floor_bounds.right == level.rooms@[rn as int].right_col - 1,
            floor_bounds.top <= row,
            row <= floor_bounds.bottom + 1 || row == floor_bounds.top,
            forall|r: int, c: int|
                floor_bounds.top <= r < row && floor_bounds.left <= c <= floor_bounds.right ==> (#[trigger] level.cell_at(r, c)).monster,
        decreases floor_bounds.bottom + 1 - row,
    {
        let mut col = floor_bounds.left;
        while col <= floor_bounds.right
            invariant
                level.wf(),
                rn < crate::constants::MAX_ROOM,
                crate::level::dig::spec_room_in_dungeon(level.rooms@[rn as int]),
                floor_bounds.top == level.rooms@[rn as int].top_row + 1,
                floor_bounds.bottom == level.rooms@[rn as int].bottom_row - 1,
                floor_bounds.left == level.rooms@[rn as int].left_col + 1,
                floor_bounds.right == level.rooms@[rn as int].right_col - 1,
                floor_bounds.top <= row <= floor_bounds.bottom,
                floor_bounds.left <= col,
                col <= floor_bounds.right + 1 || col == floor_bounds.left,
                forall|r: int, c: int|
                    floor_bounds.top <= r < row && floor_bounds.left <= c <= floor_bounds.right ==> (#[trigger] level.cell_at(r, c)).monster,
                forall|c: int| floor_bounds.left <= c < col ==> (#[trigger] level.cell_at(row as int, c)).monster,
            decreases floor_bounds.right + 1 - col,
        {
            if !level.dungeon[row as usize].get(col as usize).has_monster() {
                assert(!level.cell_at(row as int, col as int).monster);
                return false;
            }
            col += 1;
        }
        assert forall|r: int, c: int| floor_bounds.top <= r < row + 1 && floor_bounds.left <= c <= floor_bounds.right implies (#[trigger] level.cell_at(r, c)).monster by {
            if r == row {
                assert(level.cell_at(row as int, c).monster);
            }
        }
        row += 1;
    }
    true
}

/// Gives monster `mon_id`, standing in a room, a target: the first door of
/// its room that leads somewhere, looking round the four walls from one
/// drawn at random; with no such door the monster keeps its target.
pub fn aim_monster(mon_id: MonsterIndex, level: &Level, mash: &mut MonsterMash)
    requires
        old(mash).wf(),
        old(mash).monsters@.contains_key(mon_id),
        crate::level::spec_room_mark(level.rooms@, old(mash).monsters@[mon_id].spot.row, old(mash).monsters@[mon_id].spot.col) is Cavern,
    ensures
        final(mash).wf(),
        final(mash).monsters@.dom() == old(mash).monsters@.dom(),
        final(mash).m_moves == old(mash).m_moves,
        final(mash).mon_disappeared == old(mash).mon_disappeared,
        ({
            let m = old(mash).monsters@[mon_id];
            let rn = crate::level::spec_room_mark(level.rooms@, m.spot.row, m.spot.col)->0;
            let after = final(mash).monsters@[mon_id];
            &&& final(mash).monsters@ == old(mash).monsters@.insert(mon_id, after)
            &&& if exists|d: int| 0 <= d < 4 && (#[trigger] level.rooms@[rn as int].doors@[d]).oth_room is Some {
                exists|d: int| 0 <= d < 4 && (#[trigger] level.rooms@[rn as int].doors@[d]).oth_room is Some
                    && after == (crate::monster::mash::Monster {
                    target_spot: Some(DungeonSpot { row: level.rooms@[rn as int].doors@[d].door_row, col: level.rooms@[rn as int].doors@[d].door_col }),
                    ..m
                })
            } else {
                after == m
            }
        }),
{
    let spot = mash.monster(mon_id).spot;
    let rn = level.expect_room(spot.row, spot.col);
    let r = crate::random::get_rand_usize(0, 12);
    let mut i: usize = 0;
    while i < 4
        invariant
            i <= 4,
            r <= 12,
            rn < crate::constants::MAX_ROOM,
            crate::level::spec_room_mark(level.rooms@, spot.row, spot.col) == crate::room::RoomMark::Cavern(rn),
            *mash == *old(mash),
            old(mash).wf(),
            old(mash).monsters@.contains_key(mon_id),
            spot == old(mash).monsters@[mon_id].spot,
            forall|j: int| 0 <= j < i ==> (#[trigger] level.rooms@[rn as int].doors@[(r + j) % 4]).oth_room is None,
        decreases 4 - i,
    {
        let d = (r + i) % 4;
        if level.rooms[rn].doors[d].oth_room.is_some() {
            let door_row = level.rooms[rn].doors[d].door_row;
            let door_col = level.rooms[rn].doors[d].door_col;
            mash.monster_mut(mon_id).set_target_spot(door_row, door_col);
            assert(mash.monsters@.dom() =~= old(mash).monsters@.dom());
            assert(old(mash).monsters@[mon_id].id == mon_id);
            assert forall|id: MonsterIndex| #[trigger] mash.monsters@.contains_key(id) implies mash.monsters@[id].id == id by {
                if id != mon_id {
                    assert(mash.monsters@[id] == old(mash).monsters@[id]);
                }
            }
            assert(level.rooms@[rn as int].doors@[d as int].oth_room is Some);
            return;
        }
        i += 1;
    }
    assert(mash.monsters@ =~= old(mash).monsters@.insert(mon_id, mash.monsters@[mon_id]));
    assert forall|d: int| 0 <= d < 4 implies (#[trigger] level.rooms@[rn as int].doors@[d]).oth_room is None by {
        let j: int = (d + 4 - (r % 4) as int) % 4;
        assert((r + j) % 4 == d);
        assert(level.rooms@[rn as int].doors@[(r + j) % 4].oth_room is None);
    }
}

/// Puts `monster` down at `row`, `col`: it stands there, the cell shows a
/// monster, the roster keeps it under its id, and where the spot lies in a
/// room the monster aims for one of the room's doors.
pub fn airdrop_monster_at(row: i64, col: i64, monster: crate::monster::mash::Monster, level: &mut Level, mash: &mut MonsterMash)
    requires
        old(level).wf(),
        old(mash).wf(),
        in_dungeon(row as int, col as int),
    ensures
        final(level).wf(),
        final(mash).wf(),
        final(level).same_but_dungeon(old(level)),
        final(level).cell_at(row as int, col as int) == (crate::level::cells::DungeonCell { monster: true, ..old(level).cell_at(row as int, col as int) }),
        final(level).same_cells_except(old(level), row as int, col as int),
        final(mash).monsters@.dom() == old(mash).monsters@.dom().insert(monster.id),
        final(mash).m_moves == old(mash).m_moves,
        final(mash).mon_disappeared == old(mash).mon_disappeared,
        final(mash).monsters@[monster.id].spot == (DungeonSpot { row, col }),
        final(mash).monsters@[monster.id].kind == monster.kind,
        final(mash).monsters@[monster.id].m_flags == monster.m_flags,
        forall|id: MonsterIndex| id != monster.id ==> #[trigger] final(mash).monsters@.contains_key(id) ==> final(mash).monsters@[id] == old(mash).monsters@[id],
{
    let mut monster = monster;
    let mon_id = monster.id;
    monster.set_spot(row, col);
    level.cell_mut(DungeonSpot { row, col }).set_monster(true);
    mash.add_monster(monster);
    let ghost added = *mash;
    if let crate::room::RoomMark::Cavern(_) = level.room(row, col) {
        aim_monster(mon_id, level, mash);
    }
    assert(mash.monsters@.dom() =~= old(mash).monsters@.dom().insert(mon_id));
}

/// Whether `row`, `col` lies on the floor of room `rn`: inside its walls.
pub open spec fn spec_on_room_floor(level: Level, rn: usize, row: int, col: int) -> bool {
    let room = level.rooms@[rn as int];
    room.top_row < row < room.bottom_row && room.left_col < col < room.right_col
}

/// Whether `after` is `before` with monsters put down only on cells of the
/// floor of room `rn` that held floor or passage and no monster.
#[verifier::opaque]
pub open spec fn spec_party_cells(before: Level, after: Level, rn: usize) -> bool {
    &&& after.wf()
    &&& after.same_but_dungeon(&before)
    &&& forall|r: int, c: int| in_dungeon(r, c) && #[trigger] after.cell_at(r, c) != before.cell_at(r, c) ==> {
        &&& spec_on_room_floor(before, rn, r, c)
        &&& (before.cell_at(r, c).material is Floor || before.cell_at(r, c).material is Tunnel)
        &&& !before.cell_at(r, c).monster
        &&& after.cell_at(r, c) == (crate::level::cells::DungeonCell { monster: true, ..before.cell_at(r, c) })
    }
}

/// Whether the roster `after` is `before` with some of the monsters
/// `rolled` added, each on a cell of the floor of room `rn` that shows a
/// monster, waking to the rogue unless it imitates an object.
#[verifier::opaque]
pub open spec fn spec_party_added(before: MonsterMash, after: MonsterMash, level: Level, rn: usize, rolled: Seq<crate::monster::mash::Monster>) -> bool {
    &&& after.wf()
    &&& after.m_moves == before.m_moves
    &&& after.mon_disappeared == before.mon_disappeared
    &&& forall|id: MonsterIndex| #[trigger] before.monsters@.contains_key(id) ==> after.monsters@.contains_key(id)
        && after.monsters@[id] == before.monsters@[id]
    &&& forall|id: MonsterIndex| #[trigger] after.monsters@.contains_key(id) && !before.monsters@.contains_key(id) ==> exists|i: int|
        0 <= i < rolled.len() && #[trigger] rolled[i].id == id && {
            let m = after.monsters@[id];
            &&& m.kind == rolled[i].kind
            &&& m.m_flags == crate::monster::flags::spec_wakens_unless_imitating(rolled[i].m_flags)
            &&& spec_on_room_floor(level, rn, m.spot.row as int, m.spot.col as int)
            &&& level.cell_at(m.spot.row as int, m.spot.col as int).monster
        }
}

/// Putting a monster down on a free floor or passage cell of the floor of
/// room `rn` keeps the cells of a party.
proof fn lemma_party_cells_step(l0: Level, before: Level, after: Level, rn: usize, spot: DungeonSpot)
    requires
        spec_party_cells(l0, before, rn),
        after.wf(),
        after.same_but_dungeon(&before),
        in_dungeon(spot.row as int, spot.col as int),
        spec_on_room_floor(before, rn, spot.row as int, spot.col as int),
        !before.cell_at(spot.row as int, spot.col as int).monster,
        before.cell_at(spot.row as int, spot.col as int).material is Floor
            || before.cell_at(spot.row as int, spot.col as int).material is Tunnel,
        after.cell_at(spot.row as int, spot.col as int) == (crate::level::cells::DungeonCell {
            monster: true,
            ..before.cell_at(spot.row as int, spot.col as int)
        }),
        after.same_cells_except(&before, spot.row as int, spot.col as int),
    ensures
        spec_party_cells(l0, after, rn),
{
    reveal(spec_party_cells);
    assert(before.rooms@ == l0.rooms@);
    assert forall|r: int, c: int| in_dungeon(r, c) && #[trigger] after.cell_at(r, c) != l0.cell_at(r, c) implies {
        &&& spec_on_room_floor(l0, rn, r, c)
        &&& (l0.cell_at(r, c).material is Floor || l0.cell_at(r, c).material is Tunnel)
        &&& !l0.cell_at(r, c).monster
        &&& after.cell_at(r, c) == (crate::level::cells::DungeonCell { monster: true, ..l0.cell_at(r, c) })
    } by {
        if r == spot.row && c == spot.col {
            if before.cell_at(r, c) != l0.cell_at(r, c) {
                assert(before.cell_at(r, c).monster);
            }
        } else {
            assert(after.cell_at(r, c) == before.cell_at(r, c));
        }
    }
}

/// Adding the monster `rolled[i]`, put down at `spot` as `monster`, keeps
/// the roster of a party.
proof fn lemma_party_added_step(
    m0: MonsterMash,
    before: MonsterMash,
    after: MonsterMash,
    level_before: Level,
    level: Level,
    rn: usize,
    rolled: Seq<crate::monster::mash::Monster>,
    i: int,
    monster: crate::monster::mash::Monster,
    spot: DungeonSpot,
)
    requires
        0 <= i < rolled.len(),
        rn < crate::constants::MAX_ROOM,
        crate::level::dig::spec_room_in_dungeon(level_before.rooms@[rn as int]),
        spec_party_added(m0, before, level_before, rn, rolled),
        before.wf(),
        monster.id == rolled[i].id,
        monster.kind == rolled[i].kind,
        monster.m_flags == crate::monster::flags::spec_wakens_unless_imitating(rolled[i].m_flags),
        !m0.monsters@.contains_key(monster.id),
        level.same_but_dungeon(&level_before),
        level.cell_at(spot.row as int, spot.col as int).monster,
        level.same_cells_except(&level_before, spot.row as int, spot.col as int),
        spec_on_room_floor(level_before, rn, spot.row as int, spot.col as int),
        after.monsters@.dom() == before.monsters@.dom().insert(monster.id),
        after.monsters@[monster.id].spot == spot,
        after.monsters@[monster.id].kind == monster.kind,
        after.monsters@[monster.id].m_flags == monster.m_flags,
        forall|id: MonsterIndex| id != monster.id ==> #[trigger] after.monsters@.contains_key(id) ==> after.monsters@[id] == before.monsters@[id],
        after.m_moves == before.m_moves,
        after.mon_disappeared == before.mon_disappeared,
        after.wf(),
    ensures
        spec_party_added(m0, after, level, rn, rolled),
{
    reveal(spec_party_added);
    assert(level.rooms@ == level_before.rooms@);
    assert forall|id: MonsterIndex| #[trigger] m0.monsters@.contains_key(id) implies after.monsters@.contains_key(id)
        && after.monsters@[id] == m0.monsters@[id] by {
        assert(before.monsters@.contains_key(id));
    }
    assert forall|id: MonsterIndex| #[trigger] after.monsters@.contains_key(id) && !m0.monsters@.contains_key(id)
        implies exists|k: int| 0 <= k < rolled.len() && #[trigger] rolled[k].id == id && {
            let m = after.monsters@[id];
            &&& m.kind == rolled[k].kind
            &&& m.m_flags == crate::monster::flags::spec_wakens_unless_imitating(rolled[k].m_flags)
            &&& spec_on_room_floor(level, rn, m.spot.row as int, m.spot.col as int)
            &&& level.cell_at(m.spot.row as int, m.spot.col as int).monster
        } by {
        if id == monster.id {
            assert(rolled[i].id == id);
        } else {
            assert(after.monsters@[id] == before.monsters@[id]);
            let m = after.monsters@[id];
            let k = choose|k: int| 0 <= k < rolled.len() && #[trigger] rolled[k].id == id && {
                let m = before.monsters@[id];
                &&& m.kind == rolled[k].kind
                &&& m.m_flags == crate::monster::flags::spec_wakens_unless_imitating(rolled[k].m_flags)
                &&& spec_on_room_floor(level_before, rn, m.spot.row as int, m.spot.col as int)
                &&& level_before.cell_at(m.spot.row as int, m.spot.col as int).monster
            };
            if !(m.spot.row == spot.row && m.spot.col == spot.col) {
                assert(level.cell_at(m.spot.row as int, m.spot.col as int) == level_before.cell_at(m.spot.row as int, m.spot.col as int));
            }
        }
    }
}

/// Puts the monster `rolled[i]` down at `spot` on the floor of room `rn`,
/// waking to the rogue unless it imitates an object.
fn put_party_monster(
    rn: usize,
    spot: DungeonSpot,
    rolled: &Vec<crate::monster::mash::Monster>,
    i: usize,
    level0: Ghost<Level>,
    mash0: Ghost<MonsterMash>,
    level: &mut Level,
    mash: &mut MonsterMash,
)
    requires
        i < rolled@.len(),
        rn < crate::constants::MAX_ROOM,
        crate::level::dig::spec_room_in_dungeon(old(level).rooms@[rn as int]),
        spec_party_cells(level0@, *old(level), rn),
        spec_party_added(mash0@, *old(mash), *old(level), rn, rolled@),
        old(mash).wf(),
        !old(mash).monsters@.contains_key(rolled@[i as int].id),
        !mash0@.monsters@.contains_key(rolled@[i as int].id),
        in_dungeon(spot.row as int, spot.col as int),
        spec_on_room_floor(*old(level), rn, spot.row as int, spot.col as int),
        !old(level).cell_at(spot.row as int, spot.col as int).monster,
        old(level).cell_at(spot.row as int, spot.col as int).material is Floor
            || old(level).cell_at(spot.row as int, spot.col as int).material is Tunnel,
    ensures
        spec_party_cells(level0@, *final(level), rn),
        spec_party_added(mash0@, *final(mash), *final(level), rn, rolled@),
        final(level).rooms == old(level).rooms,
        final(level).wf(),
        final(mash).wf(),
        final(mash).monsters@.dom() == old(mash).monsters@.dom().insert(rolled@[i as int].id),
{
    let ghost before_level = *level;
    let ghost before_mash = *mash;
    let mut monster = rolled[i];
    monster.m_flags.wakens_unless_imitating();
    airdrop_monster_at(spot.row, spot.col, monster, level, mash);
    proof {
        lemma_party_cells_step(level0@, before_level, *level, rn, spot);
        lemma_party_added_step(mash0@, before_mash, *mash, before_level, *level, rn, rolled@, i as int, monster, spot);
    }
}

/// Fills room `rn` with up to twice `n` monsters for a party, taking them
/// in turn from `rolled`: while some floor cell of the room holds no
/// monster, up to 250 spots are drawn on its floor, and the monster is put
/// down at the first that holds floor or passage and no monster, waking to
/// the rogue unless it imitates an object.
pub fn party_monsters(rn: usize, n: usize, rolled: Vec<crate::monster::mash::Monster>, level: &mut Level, mash: &mut MonsterMash)
    requires
        old(level).wf(),
        old(mash).wf(),
        rn < crate::constants::MAX_ROOM,
        crate::level::dig::spec_room_in_dungeon(old(level).rooms@[rn as int]),
        rolled@.len() == 2 * n,
        forall|i: int| 0 <= i < rolled@.len() ==> !old(mash).monsters@.contains_key(#[trigger] rolled@[i].id),
        forall|i: int, j: int| 0 <= i < j < rolled@.len() ==> (#[trigger] rolled@[i]).id != (#[trigger] rolled@[j]).id,
    ensures
        spec_party_cells(*old(level), *final(level), rn),
        spec_party_added(*old(mash), *final(mash), *final(level), rn, rolled@),
        forall|id: MonsterIndex| #[trigger] final(mash).monsters@.contains_key(id) ==> old(mash).monsters@.contains_key(id)
            || exists|i: int| 0 <= i < rolled@.len() && #[trigger] rolled@[i].id == id,
{
    let mut i: usize = 0;
    proof {
        assert(mash.monsters@.dom() =~= old(mash).monsters@.dom());
    }
    assert(spec_party_cells(*old(level), *level, rn)) by {
        reveal(spec_party_cells);
    }
    assert(spec_party_added(*old(mash), *mash, *level, rn, rolled@)) by {
        reveal(spec_party_added);
    }
    while i < rolled.len()
        invariant
            i <= rolled@.len(),
            rn < crate::constants::MAX_ROOM,
            level.rooms == old(level).rooms,
            level.wf(),
            mash.wf(),
            crate::level::dig::spec_room_in_dungeon(level.rooms@[rn as int]),
            spec_party_cells(*old(level), *level, rn),
            spec_party_added(*old(mash), *mash, *level, rn, rolled@),
            forall|id: MonsterIndex| #[trigger] mash.monsters@.contains_key(id) ==> old(mash).monsters@.contains_key(id)
                || exists|k: int| 0 <= k < i && #[trigger] rolled@[k].id == id,
            forall|k: int| i <= k < rolled@.len() ==> !mash.monsters@.contains_key(#[trigger] rolled@[k].id),
            forall|k: int| 0 <= k < rolled@.len() ==> !old(mash).monsters@.contains_key(#[trigger] rolled@[k].id),
            forall|a: int, b: int| 0 <= a < b < rolled@.len() ==> (#[trigger] rolled@[a]).id != (#[trigger] rolled@[b]).id,
        decreases rolled@.len() - i,
    {
        if no_spot_for_monster(rn, level) {
            break;
        }
        let top = level.rooms[rn].top_row;
        let bottom = level.rooms[rn].bottom_row;
        let left = level.rooms[rn].left_col;
        let right = level.rooms[rn].right_col;
        let mut found: Option<DungeonSpot> = None;
        let mut j: usize = 0;
        while j < 250 && found.is_none()
            invariant
                j <= 250,
                rn < crate::constants::MAX_ROOM,
                level.wf(),
                top == level.rooms@[rn as int].top_row,
                bottom == level.rooms@[rn as int].bottom_row,
                left == level.rooms@[rn as int].left_col,
                right == level.rooms@[rn as int].right_col,
                top + 1 <= bottom - 1,
                left + 1 <= right - 1,
                crate::level::dig::spec_room_in_dungeon(level.rooms@[rn as int]),
                found matches Some(s) ==> spec_on_room_floor(*level, rn, s.row as int, s.col as int)
                    && !level.cell_at(s.row as int, s.col as int).monster
                    && (level.cell_at(s.row as int, s.col as int).material is Floor
                        || level.cell_at(s.row as int, s.col as int).material is Tunnel),
            decreases 250 - j,
        {
            let row = get_rand(top + 1, bottom - 1);
            let col = get_rand(left + 1, right - 1);
            let cell = level.cell(DungeonSpot { row, col });
            if !cell.has_monster() && (cell.is_any_floor() || cell.is_any_tunnel()) {
                found = Some(DungeonSpot { row, col });
            }
            j += 1;
        }
        if let Some(spot) = found {
            let ghost before_mash = *mash;
            put_party_monster(rn, spot, &rolled, i, Ghost(*old(level)), Ghost(*old(mash)), level, mash);
            proof {
                assert forall|k: int| i + 1 <= k < rolled@.len() implies !mash.monsters@.contains_key(#[trigger] rolled@[k].id) by {
                    assert(rolled@[k].id != rolled@[i as int].id);
                }
            }
        }
        i += 1;
    }
}

/// The object that `ground` shows at `row`, `col`: the first object with
/// the id of the first object lying there.
pub open spec fn spec_ground_object_at(ground: Seq<Object>, row: i64, col: i64) -> Option<Object> {
    match spec_position_at(ground, row, col) {
        Some(i) => spec_object(ground, ground[i].id),
        None => None,
    }
}

/// Whether the object shown at `s` is a scroll of scare monster.
pub open spec fn spec_scares_at(ground: Seq<Object>, s: DungeonSpot) -> bool {
    match spec_ground_object_at(ground, s.row, s.col) {
        Some(o) => spec_scroll_kind_of(o) == Some(ScrollKind::ScareMonster),
        None => false,
    }
}

/// The spots that monsters will not step on: those where the object shown
/// is a scroll of scare monster.
pub fn scare_spots(ground: &ObjectPack) -> (r: Vec<DungeonSpot>)
    requires
        forall|i: int| 0 <= i < ground@.len() ==> (#[trigger] ground@[i]).what_is is Scroll ==> ground@[i].which_kind < SCROLLS,
    ensures
        forall|s: DungeonSpot| r@.contains(s) <==> spec_scares_at(ground@, s),
{
    let mut spots: Vec<DungeonSpot> = Vec::new();
    let mut i: usize = 0;
    while i < ground.0.len()
        invariant
            i <= ground@.len(),
            forall|k: int| 0 <= k < ground@.len() ==> (#[trigger] ground@[k]).what_is is Scroll ==> ground@[k].which_kind < SCROLLS,
            forall|s: DungeonSpot| spots@.contains(s) ==> spec_scares_at(ground@, s),
            forall|j: int| 0 <= j < i ==> spec_scares_at(ground@, #[trigger] ground@[j].spot) ==> spots@.contains(ground@[j].spot),
        decreases ground@.len() - i,
    {
        let spot = ground.0[i].spot;
        let scares = match ground.find_object_at(spot.row, spot.col) {
            Some(o) => {
                proof {
                    let p = spec_position_at(ground@, spot.row, spot.col)->0;
                    lemma_position_at_valid(ground@, spot.row, spot.col);
                    lemma_position_valid(ground@, ground@[p].id);
                }
                match o.scroll_kind() {
                    Some(ScrollKind::ScareMonster) => true,
                    _ => false,
                }
            },
            None => false,
        };
        assert(scares == spec_scares_at(ground@, spot));
        if scares && !holds_spot(&spots, spot) {
            let ghost old_spots = spots@;
            spots.push(spot);
            proof {
                assert forall|q: DungeonSpot| spots@.contains(q) implies spec_scares_at(ground@, q) by {
                    if q != spot {
                        let w = choose|w: int| 0 <= w < spots@.len() && spots@[w] == q;
                        assert(old_spots[w] == q);
                        assert(old_spots.contains(q));
                    }
                }
                assert(spots@[spots@.len() - 1] == spot);
                assert forall|j: int| 0 <= j < i + 1 && spec_scares_at(ground@, #[trigger] ground@[j].spot) implies spots@.contains(ground@[j].spot) by {
                    if j < i {
                        let w = choose|w: int| 0 <= w < old_spots.len() && old_spots[w] == ground@[j].spot;
                        assert(spots@[w] == ground@[j].spot);
                    }
                }
            }
        }
        i += 1;
    }
    proof {
        assert forall|s: DungeonSpot| spec_scares_at(ground@, s) implies spots@.contains(s) by {
            lemma_position_at_valid(ground@, s.row, s.col);
            let p = spec_position_at(ground@, s.row, s.col)->0;
            assert(ground@[p].spot.row == s.row && ground@[p].spot.col == s.col);
            assert(ground@[p].spot == s);
        }
    }
    spots
}

} // verus!
