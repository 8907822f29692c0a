//! Monsters: their kinds, their flags and the roster of a level, and what
//! rouses or reveals them all at once.
use vstd::prelude::*;

use crate::level::{in_dungeon, spec_room_mark, Level};
use crate::random::rand_percent;
use crate::room::RoomMark;
use crate::monster::flags::{spec_held, spec_moved, spec_not_imitating, spec_unmasked, spec_woken, MonsterFlags};
use crate::monster::kind::MonsterKind;
use crate::monster::moves::{
    airdrop_monster_at, mon_can_go_and_reach, WAKE_PERCENT, random_walk, spec_mon_can_go, spec_walk_holds, MonsterContext,
};
use crate::constants::{DCOLS, DROWS};
use crate::level::materials::spec_material_is_stairs;
use crate::spot::DungeonSpot;
use crate::trap::{is_off_screen, spec_is_off_screen};
use crate::monster::mash::{Monster, MonsterIndex, MonsterMash};
use crate::motion::spec_texts;

pub mod flags;
pub mod kind;
pub mod roll;
pub mod mash;
pub mod monster_type;
pub mod moves;

verus! {

/// The flags of a monster roused by a humming noise: woken unless napping,
/// and no longer imitating in any case.
pub open spec fn spec_aggravated(f: MonsterFlags) -> MonsterFlags {
    spec_not_imitating(spec_woken(f))
}

/// The monster `m` with its flags replaced by `f`.
pub open spec fn spec_with_flags(m: Monster, f: MonsterFlags) -> Monster {
    Monster { m_flags: f, ..m }
}

/// A high pitched humming rouses every monster of the level: each wakes
/// unless napping and none imitates an object any more.
pub fn aggravate(mash: &mut MonsterMash, messages: &mut Vec<String>)
    ensures
        final(mash).monsters@.dom() == old(mash).monsters@.dom(),
        forall|id: MonsterIndex| #[trigger]
            old(mash).monsters@.contains_key(id) ==> final(mash).monsters@[id] == spec_with_flags(
                old(mash).monsters@[id],
                spec_aggravated(old(mash).monsters@[id].m_flags),
            ),
        final(mash).m_moves == old(mash).m_moves,
        final(mash).mon_disappeared == old(mash).mon_disappeared,
        spec_texts(final(messages)@) == spec_texts(old(messages)@).push(
            "you hear a high pitched humming noise"@,
        ),
{
    let ghost before = spec_texts(messages@);
    messages.push("you hear a high pitched humming noise".to_string());
    proof {
        reveal_strlit("you hear a high pitched humming noise");
        assert(spec_texts(messages@) =~= before.push("you hear a high pitched humming noise"@));
    }
    let ids = mash.monster_ids();
    let ghost old_m = mash.monsters@;
    let mut k: usize = 0;
    while k < ids.len()
        invariant
            k <= ids@.len(),
            ids@.to_set() == old_m.dom(),
            ids@.no_duplicates(),
            mash.monsters@.dom() == old_m.dom(),
            mash.m_moves == old(mash).m_moves,
            mash.mon_disappeared == old(mash).mon_disappeared,
            old_m == old(mash).monsters@,
            forall|j: int|
                0 <= j < k ==> #[trigger] mash.monsters@[ids@[j]] == spec_with_flags(
                    old_m[ids@[j]],
                    spec_aggravated(old_m[ids@[j]].m_flags),
                ),
            forall|j: int| k <= j < ids@.len() ==> #[trigger] mash.monsters@[ids@[j]] == old_m[ids@[j]],
        decreases ids@.len() - k,
    {
        let id = ids[k];
        proof {
            assert(ids@.to_set().contains(id));
        }
        let ghost prev = mash.monsters@;
        let m = mash.monster_mut(id);
        m.m_flags.wake_up();
        m.m_flags.stop_imitating();
        proof {
            assert(mash.monsters@.dom() =~= prev.dom());
            assert forall|j: int| 0 <= j < ids@.len() && j != k implies ids@[j] != id by {}
        }
        k = k + 1;
    }
    proof {
        assert forall|id: MonsterIndex| #[trigger]
            old_m.contains_key(id) implies mash.monsters@[id] == spec_with_flags(
            old_m[id],
            spec_aggravated(old_m[id].m_flags),
        ) by {
            assert(ids@.to_set().contains(id));
            let j = choose|j: int| 0 <= j < ids@.len() && ids@[j] == id;
            assert(mash.monsters@[ids@[j]] == spec_with_flags(old_m[ids@[j]], spec_aggravated(old_m[ids@[j]].m_flags)));
        }
    }
}

/// Monster detection: the level records that monsters are shown, and unless
/// the rogue is blind every monster that imitates an object is found out and
/// will waken.
pub fn show_monsters(level: &mut Level, mash: &mut MonsterMash, blind: bool)
    ensures
        *final(level) == (Level { detect_monster: true, ..*old(level) }),
        blind ==> *final(mash) == *old(mash),
        final(mash).monsters@.dom() == old(mash).monsters@.dom(),
        !blind ==> forall|id: MonsterIndex| #[trigger]
            old(mash).monsters@.contains_key(id) ==> final(mash).monsters@[id] == spec_with_flags(
                old(mash).monsters@[id],
                spec_unmasked(old(mash).monsters@[id].m_flags),
            ),
        final(mash).m_moves == old(mash).m_moves,
        final(mash).mon_disappeared == old(mash).mon_disappeared,
{
    level.detect_monster = true;
    if blind {
        return;
    }
    let ids = mash.monster_ids();
    let ghost old_m = mash.monsters@;
    let mut k: usize = 0;
    while k < ids.len()
        invariant
            k <= ids@.len(),
            ids@.to_set() == old_m.dom(),
            ids@.no_duplicates(),
            mash.monsters@.dom() == old_m.dom(),
            mash.m_moves == old(mash).m_moves,
            mash.mon_disappeared == old(mash).mon_disappeared,
            old_m == old(mash).monsters@,
            forall|j: int|
                0 <= j < k ==> #[trigger] mash.monsters@[ids@[j]] == spec_with_flags(
                    old_m[ids@[j]],
                    spec_unmasked(old_m[ids@[j]].m_flags),
                ),
            forall|j: int| k <= j < ids@.len() ==> #[trigger] mash.monsters@[ids@[j]] == old_m[ids@[j]],
        decreases ids@.len() - k,
    {
        let id = ids[k];
        proof {
            assert(ids@.to_set().contains(id));
        }
        let ghost prev = mash.monsters@;
        let m = mash.monster_mut(id);
        m.m_flags.unmask();
        proof {
            assert(mash.monsters@.dom() =~= prev.dom());
            assert forall|j: int| 0 <= j < ids@.len() && j != k implies ids@[j] != id by {}
        }
        k = k + 1;
    }
    proof {
        assert forall|id: MonsterIndex| #[trigger]
            old_m.contains_key(id) implies mash.monsters@[id] == spec_with_flags(
            old_m[id],
            spec_unmasked(old_m[id].m_flags),
        ) by {
            assert(ids@.to_set().contains(id));
            let j = choose|j: int| 0 <= j < ids@.len() && ids@[j] == id;
            assert(mash.monsters@[ids@[j]] == spec_with_flags(old_m[ids@[j]], spec_unmasked(old_m[ids@[j]].m_flags)));
        }
    }
}

/// Whether an aquator takes its move this turn: it can step onto the rogue's
/// spot.
pub open spec fn spec_aquator_moves(level: Level, mash: MonsterMash, id: MonsterIndex, ctx: MonsterContext) -> bool {
    mash.monsters@[id].kind == MonsterKind::Aquator && spec_mon_can_go(
        level,
        mash,
        id,
        ctx.rogue.row as int,
        ctx.rogue.col as int,
        false,
        ctx.rogue,
        ctx.scare_spots@,
    )
}

/// Every aquator that could step onto the rogue's spot spends its move of
/// this turn; every other monster is left as it was.
pub fn mv_aquatars(level: &Level, mash: &mut MonsterMash, ctx: &MonsterContext)
    requires
        level.wf(),
        in_dungeon(ctx.rogue.row as int, ctx.rogue.col as int),
        forall|id: MonsterIndex| #[trigger]
            old(mash).monsters@.contains_key(id) ==> in_dungeon(
                old(mash).monsters@[id].spot.row as int,
                old(mash).monsters@[id].spot.col as int,
            ),
    ensures
        final(mash).monsters@.dom() == old(mash).monsters@.dom(),
        forall|id: MonsterIndex| #[trigger]
            old(mash).monsters@.contains_key(id) ==> final(mash).monsters@[id] == (if spec_aquator_moves(
                *level,
                *old(mash),
                id,
                *ctx,
            ) {
                spec_with_flags(old(mash).monsters@[id], spec_moved(old(mash).monsters@[id].m_flags))
            } else {
                old(mash).monsters@[id]
            }),
        final(mash).m_moves == old(mash).m_moves,
        final(mash).mon_disappeared == old(mash).mon_disappeared,
{
    let ids = mash.monster_ids();
    let ghost old_mash = *mash;
    let ghost old_m = mash.monsters@;
    let mut k: usize = 0;
    while k < ids.len()
        invariant
            k <= ids@.len(),
            level.wf(),
            in_dungeon(ctx.rogue.row as int, ctx.rogue.col as int),
            ids@.to_set() == old_m.dom(),
            ids@.no_duplicates(),
            old_m == old_mash.monsters@,
            *old(mash) == old_mash,
            forall|id: MonsterIndex| #[trigger]
                old_m.contains_key(id) ==> in_dungeon(old_m[id].spot.row as int, old_m[id].spot.col as int),
            mash.monsters@.dom() == old_m.dom(),
            mash.m_moves == old(mash).m_moves,
            mash.mon_disappeared == old(mash).mon_disappeared,
            forall|j: int|
                0 <= j < k ==> #[trigger] mash.monsters@[ids@[j]] == (if spec_aquator_moves(
                    *level,
                    old_mash,
                    ids@[j],
                    *ctx,
                ) {
                    spec_with_flags(old_m[ids@[j]], spec_moved(old_m[ids@[j]].m_flags))
                } else {
                    old_m[ids@[j]]
                }),
            forall|j: int| k <= j < ids@.len() ==> #[trigger] mash.monsters@[ids@[j]] == old_m[ids@[j]],
        decreases ids@.len() - k,
    {
        let id = ids[k];
        proof {
            assert(ids@.to_set().contains(id));
            assert(mash.monsters@[ids@[k as int]] == old_m[ids@[k as int]]);
        }
        let ghost prev = mash.monsters@;
        let is_aquator = mash.monster(id).kind == MonsterKind::Aquator;
        if is_aquator && mon_can_go_and_reach(id, ctx.rogue.row, ctx.rogue.col, false, ctx, level, mash) {
            let flags = mash.monster_flags_mut(id);
            flags.mark_moved();
            proof {
                assert(mash.monsters@.dom() =~= prev.dom());
            }
        }
        proof {
            assert forall|j: int| 0 <= j < ids@.len() && j != k implies ids@[j] != id by {}
        }
        k = k + 1;
    }
    proof {
        assert forall|id: MonsterIndex| #[trigger]
            old_m.contains_key(id) implies mash.monsters@[id] == (if spec_aquator_moves(
            *level,
            old_mash,
            id,
            *ctx,
        ) {
            spec_with_flags(old_m[id], spec_moved(old_m[id].m_flags))
        } else {
            old_m[id]
        }) by {
            assert(ids@.to_set().contains(id));
            let j = choose|j: int| 0 <= j < ids@.len() && ids@[j] == id;
            assert(mash.monsters@[ids@[j]] == mash.monsters@[id]);
        }
    }
}

/// Whether a new monster may appear at `row`, `col`: a spot of the dungeon
/// with no monster on floor, passage, stairs or a door.
pub open spec fn spec_spawn_spot(level: &Level, row: int, col: int) -> bool {
    &&& in_dungeon(row, col)
    &&& !level.cell_at(row, col).monster
    &&& {
        let m = level.cell_at(row, col).material;
        m is Floor || m is Tunnel || spec_material_is_stairs(m) || m is Door
    }
}

/// A spot next to `start_row`, `start_col`, looked for in an order left to
/// chance, where a new monster may appear; none when no spot around is fit.
pub fn random_spot_for_monster(start_row: i64, start_col: i64, level: &Level) -> (r: Option<DungeonSpot>)
    requires
        level.wf(),
        in_dungeon(start_row as int, start_col as int),
    ensures
        r matches Some(s) ==> {
            &&& spec_spawn_spot(level, s.row as int, s.col as int)
            &&& !(s.row == start_row && s.col == start_col)
            &&& -1 <= s.row - start_row <= 1
            &&& -1 <= s.col - start_col <= 1
        },
        r is None ==> forall|dr: int, dc: int|
            -1 <= dr <= 1 && -1 <= dc <= 1 && !(dr == 0 && dc == 0) ==> !#[trigger] spec_spawn_spot(
                level,
                start_row + dr,
                start_col + dc,
            ),
{
    let walk = random_walk(start_row, start_col);
    let mut i: usize = 0;
    while i < 9
        invariant
            i <= 9,
            level.wf(),
            in_dungeon(start_row as int, start_col as int),
            forall|j: int| 0 <= j < 9 ==> -1 <= (#[trigger] walk@[j]).row - start_row <= 1 && -1 <= walk@[j].col - start_col <= 1,
            forall|j: int|
                0 <= j < i ==> (#[trigger] walk@[j]).row == start_row && walk@[j].col == start_col
                    || !spec_spawn_spot(level, walk@[j].row as int, walk@[j].col as int),
        decreases 9 - i,
    {
        let spot = walk[i];
        if !(spot.row == start_row && spot.col == start_col) && 0 <= spot.row && spot.row
            < DROWS as i64 && 0 <= spot.col && spot.col < DCOLS as i64 {
            let cell = level.cell(spot);
            if !cell.has_monster() && (cell.is_any_floor() || cell.is_any_tunnel() || cell.is_stairs()
                || cell.is_any_door()) {
                return Some(spot);
            }
        }
        i += 1;
    }
    proof {
        assert forall|dr: int, dc: int|
            -1 <= dr <= 1 && -1 <= dc <= 1 && !(dr == 0 && dc == 0) implies !#[trigger] spec_spawn_spot(
            level,
            start_row + dr,
            start_col + dc,
        ) by {
            assert(spec_walk_holds(walk@, start_row + dr, start_col + dc));
            let j = choose|j: int| 0 <= j < 9 && walk@[j].row == start_row + dr && walk@[j].col == start_col + dc;
            assert(walk@[j].row == start_row && walk@[j].col == start_col || !spec_spawn_spot(level, walk@[j].row as int, walk@[j].col as int));
        }
    }
    None
}

/// Calls up `monster` next to the rogue at `rogue`: it appears at a spot
/// that `random_spot_for_monster` finds, and wakes if it wakens or wanders.
/// Where no spot is fit the diary tells of a faint cry instead.
pub fn create_monster(
    rogue: DungeonSpot,
    monster: Monster,
    level: &mut Level,
    mash: &mut MonsterMash,
    messages: &mut Vec<String>,
)
    requires
        old(level).wf(),
        old(mash).wf(),
        in_dungeon(rogue.row as int, rogue.col as int),
    ensures
        final(level).wf(),
        final(mash).wf(),
        final(level).same_but_dungeon(old(level)),
        ({
            let id = monster.id;
            if final(mash).monsters@.dom() == old(mash).monsters@.dom().insert(id)
                && final(level).cell_at(
                final(mash).monsters@[id].spot.row as int,
                final(mash).monsters@[id].spot.col as int,
            ).monster && spec_texts(final(messages)@) == spec_texts(old(messages)@) {
                let s = final(mash).monsters@[id].spot;
                &&& spec_spawn_spot(old(level), s.row as int, s.col as int)
                &&& !(s.row == rogue.row && s.col == rogue.col)
                &&& -1 <= s.row - rogue.row <= 1
                &&& -1 <= s.col - rogue.col <= 1
                &&& final(level).same_cells_except(old(level), s.row as int, s.col as int)
                &&& final(mash).monsters@[id].kind == monster.kind
                &&& final(mash).monsters@[id].m_flags == (if monster.m_flags.wakens
                    || monster.m_flags.wanders {
                    spec_woken(monster.m_flags)
                } else {
                    monster.m_flags
                })
                &&& forall|other: MonsterIndex| other != id ==> #[trigger] final(mash).monsters@.contains_key(other)
                    ==> final(mash).monsters@[other] == old(mash).monsters@[other]
            } else {
                &&& *final(level) == *old(level)
                &&& *final(mash) == *old(mash)
                &&& spec_texts(final(messages)@) == spec_texts(old(messages)@).push(
                    "you hear a faint cry of anguish in the distance"@,
                )
                &&& forall|dr: int, dc: int|
                    -1 <= dr <= 1 && -1 <= dc <= 1 && !(dr == 0 && dc == 0) ==> !#[trigger] spec_spawn_spot(
                        old(level),
                        rogue.row + dr,
                        rogue.col + dc,
                    )
            }
        }),
{
    match random_spot_for_monster(rogue.row, rogue.col, level) {
        Some(found) => {
            let id = monster.id;
            let rouse = monster.wanders_or_wakens();
            airdrop_monster_at(found.row, found.col, monster, level, mash);
            if rouse {
                let m = mash.monster_mut(id);
                m.wake_up();
                proof {
                    assert(mash.monsters@.dom() =~= old(mash).monsters@.dom().insert(id));
                }
            }
        },
        None => {
            let ghost before = spec_texts(messages@);
            messages.push("you hear a faint cry of anguish in the distance".to_string());
            proof {
                reveal_strlit("you hear a faint cry of anguish in the distance");
                assert(spec_texts(messages@) =~= before.push(
                    "you hear a faint cry of anguish in the distance"@,
                ));
                assert(spec_texts(messages@) != before);
            }
        },
    }
}

/// The spot at index `k` of the five by five box around `rogue`, taken row
/// by row from the upper left.
pub open spec fn spec_box_spot(rogue: DungeonSpot, k: int) -> DungeonSpot {
    DungeonSpot { row: (rogue.row + k / 5 - 2) as i64, col: (rogue.col + k % 5 - 2) as i64 }
}

/// Whether a monster at `s` is held by a scroll read at `rogue`: `s` lies
/// on the screen within two steps of the rogue and its cell shows a
/// monster.
pub open spec fn spec_held_spot(level: &Level, rogue: DungeonSpot, s: DungeonSpot) -> bool {
    &&& -2 <= s.row - rogue.row <= 2
    &&& -2 <= s.col - rogue.col <= 2
    &&& !spec_is_off_screen(s.row, s.col)
    &&& level.cell_at(s.row as int, s.col as int).monster
}

/// How many of the first `k` spots of the box around `rogue` hold a
/// monster that the scroll holds.
pub open spec fn spec_held_count(level: &Level, rogue: DungeonSpot, k: int) -> nat
    decreases k,
{
    if k <= 0 {
        0
    } else {
        spec_held_count(level, rogue, k - 1) + if spec_held_spot(level, rogue, spec_box_spot(rogue, k - 1)) {
            1nat
        } else {
            0nat
        }
    }
}

/// What the rogue reads after holding `count` monsters.
pub open spec fn spec_hold_text(count: nat) -> Seq<char> {
    if count == 0 {
        "you feel a strange sense of loss"@
    } else if count == 1 {
        "the monster freezes"@
    } else {
        "the monsters around you freeze"@
    }
}

/// Every cell of the level that shows a monster has a monster of the roster
/// standing on it, and no two monsters share a spot.
pub open spec fn spec_roster_matches(level: &Level, mash: &MonsterMash) -> bool {
    &&& forall|r: int, c: int|
        in_dungeon(r, c) && #[trigger] level.cell_at(r, c).monster ==> exists|id: MonsterIndex|
            mash.monsters@.contains_key(id) && #[trigger] mash.monsters@[id].spot == (DungeonSpot {
                row: r as i64,
                col: c as i64,
            })
    &&& forall|a: MonsterIndex, b: MonsterIndex|
        #[trigger] mash.monsters@.contains_key(a) && #[trigger] mash.monsters@.contains_key(b) && a != b
            ==> mash.monsters@[a].spot != mash.monsters@[b].spot
}

/// A scroll of hold monster: every monster on the screen within two steps
/// of the rogue falls asleep and will not waken, and the rogue reads how
/// many froze.
pub fn hold_monster(rogue: DungeonSpot, level: &Level, mash: &mut MonsterMash, messages: &mut Vec<String>)
    requires
        level.wf(),
        in_dungeon(rogue.row as int, rogue.col as int),
        spec_roster_matches(level, old(mash)),
    ensures
        final(mash).monsters@.dom() == old(mash).monsters@.dom(),
        forall|id: MonsterIndex| #[trigger]
            old(mash).monsters@.contains_key(id) ==> final(mash).monsters@[id] == (if spec_held_spot(
                level,
                rogue,
                old(mash).monsters@[id].spot,
            ) {
                spec_with_flags(old(mash).monsters@[id], spec_held(old(mash).monsters@[id].m_flags))
            } else {
                old(mash).monsters@[id]
            }),
        final(mash).m_moves == old(mash).m_moves,
        final(mash).mon_disappeared == old(mash).mon_disappeared,
        spec_texts(final(messages)@) == spec_texts(old(messages)@).push(
            spec_hold_text(spec_held_count(level, rogue, 25)),
        ),
{
    let ghost old_m = mash.monsters@;
    let mut count: usize = 0;
    let mut k: usize = 0;
    while k < 25
        invariant
            k <= 25,
            level.wf(),
            in_dungeon(rogue.row as int, rogue.col as int),
            old_m == old(mash).monsters@,
            spec_roster_matches(level, old(mash)),
            mash.monsters@.dom() == old_m.dom(),
            mash.m_moves == old(mash).m_moves,
            mash.mon_disappeared == old(mash).mon_disappeared,
            count == spec_held_count(level, rogue, k as int),
            count <= k,
            forall|id: MonsterIndex| #[trigger]
                old_m.contains_key(id) ==> mash.monsters@[id] == (if spec_held_spot(level, rogue, old_m[id].spot)
                    && (old_m[id].spot.row - rogue.row + 2) * 5 + (old_m[id].spot.col - rogue.col + 2) < k {
                    spec_with_flags(old_m[id], spec_held(old_m[id].m_flags))
                } else {
                    old_m[id]
                }),
        decreases 25 - k,
    {
        let row = rogue.row + (k / 5) as i64 - 2;
        let col = rogue.col + (k % 5) as i64 - 2;
        let ghost s = DungeonSpot { row, col };
        assert(s == spec_box_spot(rogue, k as int));
        if !is_off_screen(row, col) && level.cell(DungeonSpot { row, col }).has_monster() {
            proof {
                assert(level.cell_at(row as int, col as int).monster);
            }
            let ghost before = mash.monsters@;
            let found = mash.monster_at_spot_mut(row, col);
            match found {
                Some(monster) => {
                    monster.m_flags.hold();
                },
                None => {
                    proof {
                        let id = choose|id: MonsterIndex|
                            old_m.contains_key(id) && #[trigger] old_m[id].spot == (DungeonSpot { row, col });
                        assert(before.contains_key(id));
                        assert(before[id].spot == old_m[id].spot);
                    }
                },
            }
            proof {
                assert forall|id: MonsterIndex| #[trigger]
                    old_m.contains_key(id) implies mash.monsters@[id] == (if spec_held_spot(level, rogue, old_m[id].spot)
                        && (old_m[id].spot.row - rogue.row + 2) * 5 + (old_m[id].spot.col - rogue.col + 2) < k + 1 {
                        spec_with_flags(old_m[id], spec_held(old_m[id].m_flags))
                    } else {
                        old_m[id]
                    }) by {
                    assert(before[id].spot == old_m[id].spot);
                    if old_m[id].spot == s {
                        assert(spec_held_spot(level, rogue, old_m[id].spot));
                    }
                }
                assert(mash.monsters@.dom() =~= old_m.dom());
            }
            count = count + 1;
        } else {
            proof {
                assert forall|id: MonsterIndex| #[trigger]
                    old_m.contains_key(id) implies !(old_m[id].spot == s && spec_held_spot(level, rogue, old_m[id].spot)) by {}
            }
        }
        k = k + 1;
    }
    let ghost before = spec_texts(messages@);
    if count == 0 {
        messages.push("you feel a strange sense of loss".to_string());
    } else if count == 1 {
        messages.push("the monster freezes".to_string());
    } else {
        messages.push("the monsters around you freeze".to_string());
    }
    proof {
        reveal_strlit("you feel a strange sense of loss");
        reveal_strlit("the monster freezes");
        reveal_strlit("the monsters around you freeze");
        assert(spec_texts(messages@) =~= before.push(spec_hold_text(count as nat)));
        assert forall|id: MonsterIndex| #[trigger]
            old_m.contains_key(id) implies mash.monsters@[id] == (if spec_held_spot(level, rogue, old_m[id].spot) {
                spec_with_flags(old_m[id], spec_held(old_m[id].m_flags))
            } else {
                old_m[id]
            }) by {}
    }
}

/// Detecting the monsters twice unmasks each as detecting them once does.
pub proof fn law_unmask_idempotent(f: MonsterFlags)
    ensures
        spec_unmasked(spec_unmasked(f)) == spec_unmasked(f),
{
    reveal(spec_unmasked);
}

/// A monster held twice is held as once.
pub proof fn law_hold_idempotent(f: MonsterFlags)
    ensures
        spec_held(spec_held(f)) == spec_held(f),
{
    reveal(spec_held);
}

/// The chance in a hundred that a monster of the party room wakes as the
/// rogue comes in.
pub const PARTY_WAKE_PERCENT: i64 = 75;

/// The monster `m` aiming for `target`.
pub open spec fn spec_with_target(m: Monster, target: Option<DungeonSpot>) -> Monster {
    Monster { target_spot: target, ..m }
}

/// The chance in a hundred that a monster of room `rn` that wakens does
/// wake as the rogue comes by: more in the party room, less the stealthier
/// the rogue.
pub open spec fn spec_wake_percent(rn: usize, party_room: Option<usize>, stealthy: i64) -> int {
    let base: int = if party_room == Some(rn) { PARTY_WAKE_PERCENT as int } else { WAKE_PERCENT as int };
    if stealthy > 0 { base / (3 + stealthy) } else { base }
}

/// The chance in a hundred that a monster of room `rn` that wakens does
/// wake as the rogue comes by.
pub fn wake_percent(rn: usize, party_room: Option<usize>, stealthy: i64) -> (r: i64)
    requires
        stealthy <= i64::MAX - 3,
    ensures
        r == spec_wake_percent(rn, party_room, stealthy),
{
    let base: i64 = match party_room {
        Some(p) => if p == rn { PARTY_WAKE_PERCENT } else { WAKE_PERCENT },
        None => WAKE_PERCENT,
    };
    if stealthy > 0 { base / (3 + stealthy) } else { base }
}

/// What the rogue coming by room `rn` may do to monster `before`: a monster
/// of the room gives up its target when the rogue enters and otherwise
/// makes for `row`, `col`, and one that wakens may wake; any other monster
/// stays as it was.
pub open spec fn spec_room_woken(level: &Level, rn: usize, entering: bool, row: i64, col: i64, before: Monster, after: Monster) -> bool {
    if spec_room_mark(level.rooms@, before.spot.row, before.spot.col) == RoomMark::Cavern(rn) {
        let target = if entering { None } else { Some(DungeonSpot { row, col }) };
        let aimed = spec_with_target(before, target);
        ||| after == aimed
        ||| before.m_flags.wakens && after == spec_with_flags(aimed, spec_woken(before.m_flags))
    } else {
        after == before
    }
}

/// The rogue comes by room `rn`, entering it or standing at `row`, `col`:
/// each monster of the room gives up its target when the rogue enters and
/// otherwise makes for the rogue, and each that wakens wakes with the
/// chance `spec_wake_percent` gives.
pub fn wake_room(rn: usize, entering: bool, row: i64, col: i64, stealthy: i64, level: &Level, mash: &mut MonsterMash)
    requires
        stealthy <= i64::MAX - 3,
    ensures
        final(mash).monsters@.dom() == old(mash).monsters@.dom(),
        forall|id: MonsterIndex| #[trigger]
            old(mash).monsters@.contains_key(id) ==> spec_room_woken(level, rn, entering, row, col, old(mash).monsters@[id], final(mash).monsters@[id]),
        final(mash).m_moves == old(mash).m_moves,
        final(mash).mon_disappeared == old(mash).mon_disappeared,
{
    let wake_percent = wake_percent(rn, level.party_room, stealthy);
    let ids = mash.monster_ids();
    let ghost old_m = mash.monsters@;
    let mut k: usize = 0;
    while k < ids.len()
        invariant
            k <= ids@.len(),
            ids@.to_set() == old_m.dom(),
            ids@.no_duplicates(),
            mash.monsters@.dom() == old_m.dom(),
            mash.m_moves == old(mash).m_moves,
            mash.mon_disappeared == old(mash).mon_disappeared,
            old_m == old(mash).monsters@,
            forall|j: int| 0 <= j < k ==> #[trigger] spec_room_woken(level, rn, entering, row, col, old_m[ids@[j]], mash.monsters@[ids@[j]]),
            forall|j: int| k <= j < ids@.len() ==> #[trigger] mash.monsters@[ids@[j]] == old_m[ids@[j]],
        decreases ids@.len() - k,
    {
        let id = ids[k];
        proof {
            assert(ids@.to_set().contains(id));
            assert(mash.monsters@[ids@[k as int]] == old_m[ids@[k as int]]);
        }
        let ghost prev = mash.monsters@;
        let m = mash.monster_mut(id);
        if m.in_room(rn, level) {
            if entering {
                m.target_spot = None;
            } else {
                m.target_spot = Some(DungeonSpot { row, col });
            }
            if m.m_flags.wakens && rand_percent(wake_percent) {
                m.wake_up();
            }
        }
        proof {
            assert(mash.monsters@.dom() =~= prev.dom());
            assert forall|j: int| 0 <= j < ids@.len() && j != k implies ids@[j] != id by {}
        }
        k = k + 1;
    }
    proof {
        assert forall|id: MonsterIndex| #[trigger]
            old_m.contains_key(id) implies spec_room_woken(level, rn, entering, row, col, old_m[id], mash.monsters@[id]) by {
            assert(ids@.to_set().contains(id));
            let j = choose|j: int| 0 <= j < ids@.len() && ids@[j] == id;
            assert(spec_room_woken(level, rn, entering, row, col, old_m[ids@[j]], mash.monsters@[ids@[j]]));
        }
    }
}

} // verus!
