//! Rolling a new monster for a depth of the dungeon.
use vstd::prelude::*;

use crate::constants::AMULET_LEVEL;
use crate::monster::kind::{
    spec_drop_percent, spec_first_level, spec_flags, spec_hasted, spec_hp_to_kill, spec_last_level, spec_screen_char,
    MonsterKind, MONSTERS,
};
use crate::level::{in_dungeon, Level};
use crate::monster::mash::{Monster, MonsterIndex, MonsterMash, StuckCounter};
use crate::monster::moves::{airdrop_monster_at, mon_sees, rogue_is_near, spec_is_near, spec_mon_sees};
use crate::objects::placing::gr_spot;
use crate::random::{coin_toss, gen_u64, get_rand, get_rand_usize};
use crate::spot::DungeonSpot;

verus! {

/// Whether monsters of kind `k` appear at depth `depth`, with the
/// shallowest depth of every kind brought up by `first_level_shift`.
pub open spec fn spec_kind_fits(k: MonsterKind, depth: usize, first_level_shift: usize) -> bool {
    spec_first_level(k) <= depth + first_level_shift && depth <= spec_last_level(k)
}

/// A new monster of kind `kind` made at depth `depth`: the kind's hit
/// points, drop chance and starting flags (hasted more than two levels
/// below the amulet's depth), standing nowhere yet, with no target.
pub open spec fn spec_new_monster(id: u64, kind: MonsterKind, depth: usize) -> Monster {
    Monster {
        id,
        kind,
        m_flags: if depth > AMULET_LEVEL + 2 { spec_hasted(spec_flags(kind)) } else { spec_flags(kind) },
        spot: DungeonSpot { row: 0, col: 0 },
        slowed_toggle: false,
        target_spot: None,
        nap_length: 0,
        stuck_counter: StuckCounter { row: 0, col: 0, count: 0 },
        moves_confused: 0,
        stationary_damage: 0,
        hp_to_kill: spec_hp_to_kill(kind),
        killed: false,
        drop_percent: spec_drop_percent(kind),
    }
}

/// A new monster for depth `depth`: of a kind drawn evenly among those
/// that appear there (their shallowest depth brought up by
/// `first_level_shift`), made as `spec_new_monster` says under a random
/// id.  `None` where no kind appears there.
pub fn roll_monster(depth: usize, first_level_shift: usize) -> (r: Option<Monster>)
    requires
        depth + first_level_shift <= usize::MAX,
    ensures
        r is None ==> forall|i: usize| i < MONSTERS ==> !spec_kind_fits(#[trigger] crate::monster::kind::spec_from_index(i), depth, first_level_shift),
        r matches Some(m) ==> spec_kind_fits(m.kind, depth, first_level_shift) && m == spec_new_monster(m.id, m.kind, depth),
{
    let mut kinds: Vec<MonsterKind> = Vec::new();
    let mut i: usize = 0;
    while i < MONSTERS
        invariant
            i <= MONSTERS,
            depth + first_level_shift <= usize::MAX,
            forall|j: int| 0 <= j < kinds@.len() ==> spec_kind_fits(#[trigger] kinds@[j], depth, first_level_shift),
            kinds@.len() == 0 ==> forall|j: usize| j < i ==> !spec_kind_fits(#[trigger] crate::monster::kind::spec_from_index(j), depth, first_level_shift),
        decreases MONSTERS - i,
    {
        let k = MonsterKind::from_index(i);
        if k.first_level() <= depth + first_level_shift && depth <= k.last_level() {
            kinds.push(k);
        }
        i += 1;
    }
    if kinds.len() == 0 {
        return None;
    }
    let pick = get_rand_usize(0, kinds.len() - 1);
    let kind = kinds[pick];
    let monster = Monster {
        id: gen_u64(),
        kind,
        m_flags: kind.depth_adjusted_flags(depth),
        spot: DungeonSpot { row: 0, col: 0 },
        slowed_toggle: false,
        target_spot: None,
        nap_length: 0,
        stuck_counter: StuckCounter { row: 0, col: 0, count: 0 },
        moves_confused: 0,
        stationary_damage: 0,
        hp_to_kill: kind.hp_to_kill(),
        killed: false,
        drop_percent: kind.drop_percent(),
    };
    Some(monster)
}

/// A wandering monster for depth `depth`: the first of up to fifteen
/// monsters rolled as `roll_monster` says that wakens or wanders.
pub fn random_wanderer(depth: usize) -> (r: Option<Monster>)
    requires
        depth <= usize::MAX,
    ensures
        r matches Some(m) ==> (m.m_flags.wakens || m.m_flags.wanders) && spec_kind_fits(m.kind, depth, 0)
            && m == spec_new_monster(m.id, m.kind, depth),
{
    let mut i: usize = 0;
    while i < 15
        invariant
            i <= 15,
        decreases 15 - i,
    {
        if let Some(monster) = roll_monster(depth, 0) {
            if monster.wanders_or_wakens() {
                return Some(monster);
            }
        }
        i += 1;
    }
    None
}

/// Whether the cells of `level` are those of `level0` with monster marks
/// added only.
pub open spec fn spec_marks_added(level0: Level, level: Level) -> bool {
    &&& level.wf()
    &&& level.same_but_dungeon(&level0)
    &&& forall|r: int, c: int| in_dungeon(r, c) ==> #[trigger] level.cell_at(r, c) == level0.cell_at(r, c)
        || level.cell_at(r, c) == (crate::level::cells::DungeonCell { monster: true, ..level0.cell_at(r, c) })
}

/// Whether the roster `mash` is `mash0` with monsters for depth `depth`
/// added: every id is kept, and a monster under a new id is of a kind that
/// appears at that depth and stands on a cell that shows a monster.
pub open spec fn spec_monsters_added(mash0: MonsterMash, mash: MonsterMash, level: Level, depth: usize) -> bool {
    &&& mash.wf()
    &&& mash.m_moves == mash0.m_moves
    &&& mash.mon_disappeared == mash0.mon_disappeared
    &&& forall|id: MonsterIndex| #[trigger] mash0.monsters@.contains_key(id) ==> mash.monsters@.contains_key(id)
    &&& forall|id: MonsterIndex| #[trigger] mash.monsters@.contains_key(id) && !mash0.monsters@.contains_key(id) ==> {
        &&& spec_kind_fits(mash.monsters@[id].kind, depth, 0)
        &&& in_dungeon(mash.monsters@[id].spot.row as int, mash.monsters@[id].spot.col as int)
        &&& level.cell_at(mash.monsters@[id].spot.row as int, mash.monsters@[id].spot.col as int).monster
    }
}

/// Puts the first monsters of a level down: four to six, each rolled as
/// `roll_monster` says (one that wanders wakes on a coin toss) and put down
/// at random on floor, passage or an object, away from the rogue, as
/// `gr_spot` picks.
pub fn put_mons(depth: usize, rogue: DungeonSpot, level: &mut Level, mash: &mut MonsterMash)
    requires
        old(level).wf(),
        old(mash).wf(),
    ensures
        spec_marks_added(*old(level), *final(level)),
        spec_monsters_added(*old(mash), *final(mash), *final(level), depth),
{
    let n = get_rand(4, 6);
    let mut i: i64 = 0;
    while i < n
        invariant
            0 <= i,
            spec_marks_added(*old(level), *level),
            spec_monsters_added(*old(mash), *mash, *level, depth),
        decreases n - i,
    {
        if let Some(mut monster) = roll_monster(depth, 0) {
            if monster.m_flags.wanders && coin_toss() {
                monster.wake_up();
            }
            if let Some(spot) = gr_spot(rogue, true, level) {
                let ghost l1 = *level;
                let ghost m1 = *mash;
                airdrop_monster_at(spot.row, spot.col, monster, level, mash);
                proof {
                    lemma_marks_step(*old(level), l1, *level, spot);
                    lemma_monsters_step(*old(mash), m1, *mash, l1, *level, depth, monster, spot);
                }
            }
        }
        i += 1;
    }
}

/// Putting a monster down keeps `spec_marks_added`.
proof fn lemma_marks_step(level0: Level, l1: Level, l2: Level, spot: DungeonSpot)
    requires
        spec_marks_added(level0, l1),
        l2.wf(),
        l2.same_but_dungeon(&l1),
        l2.cell_at(spot.row as int, spot.col as int) == (crate::level::cells::DungeonCell {
            monster: true,
            ..l1.cell_at(spot.row as int, spot.col as int)
        }),
        l2.same_cells_except(&l1, spot.row as int, spot.col as int),
    ensures
        spec_marks_added(level0, l2),
{
    assert forall|r: int, c: int| in_dungeon(r, c) implies #[trigger] l2.cell_at(r, c) == level0.cell_at(r, c)
        || l2.cell_at(r, c) == (crate::level::cells::DungeonCell { monster: true, ..level0.cell_at(r, c) }) by {
        if !(r == spot.row && c == spot.col) {
            assert(l2.cell_at(r, c) == l1.cell_at(r, c));
        }
        assert(l1.cell_at(r, c) == level0.cell_at(r, c)
            || l1.cell_at(r, c) == (crate::level::cells::DungeonCell { monster: true, ..level0.cell_at(r, c) }));
    }
}

/// Putting a monster of a fitting kind down keeps `spec_monsters_added`.
proof fn lemma_monsters_step(
    mash0: MonsterMash,
    m1: MonsterMash,
    m2: MonsterMash,
    l1: Level,
    l2: Level,
    depth: usize,
    monster: Monster,
    spot: DungeonSpot,
)
    requires
        spec_monsters_added(mash0, m1, l1, depth),
        spec_kind_fits(monster.kind, depth, 0),
        in_dungeon(spot.row as int, spot.col as int),
        m2.wf(),
        m2.m_moves == m1.m_moves,
        m2.mon_disappeared == m1.mon_disappeared,
        m2.monsters@.dom() == m1.monsters@.dom().insert(monster.id),
        m2.monsters@[monster.id].spot == spot,
        m2.monsters@[monster.id].kind == monster.kind,
        forall|id: MonsterIndex| id != monster.id ==> #[trigger] m2.monsters@.contains_key(id) ==> m2.monsters@[id] == m1.monsters@[id],
        l2.same_but_dungeon(&l1),
        l2.cell_at(spot.row as int, spot.col as int).monster,
        forall|r: int, c: int| in_dungeon(r, c) ==> (#[trigger] l1.cell_at(r, c)).monster ==> l2.cell_at(r, c).monster,
    ensures
        spec_monsters_added(mash0, m2, l2, depth),
{
    assert forall|id: MonsterIndex| #[trigger] mash0.monsters@.contains_key(id) implies m2.monsters@.contains_key(id) by {
        assert(m1.monsters@.contains_key(id));
        assert(m2.monsters@.dom().contains(id));
    }
    assert forall|id: MonsterIndex| #[trigger] m2.monsters@.contains_key(id) && !mash0.monsters@.contains_key(id) implies {
        &&& spec_kind_fits(m2.monsters@[id].kind, depth, 0)
        &&& in_dungeon(m2.monsters@[id].spot.row as int, m2.monsters@[id].spot.col as int)
        &&& l2.cell_at(m2.monsters@[id].spot.row as int, m2.monsters@[id].spot.col as int).monster
    } by {
        if id != monster.id {
            assert(m2.monsters@.dom().contains(id));
            assert(m1.monsters@.contains_key(id));
            assert(m2.monsters@[id] == m1.monsters@[id]);
            let s = m1.monsters@[id].spot;
            assert(l1.cell_at(s.row as int, s.col as int).monster);
        }
    }
}

/// The character that shows monster `m`: what lies under it (`under`)
/// where it is invisible and not seen through or the rogue is blind; the
/// object it imitates (`disguise`) where it imitates one; its kind's letter
/// otherwise.
pub fn gmc(m: &Monster, defeats_invisibility: bool, blind: bool, under: char, disguise: char) -> (r: char)
    ensures
        r == (if (m.m_flags.invisible && !defeats_invisibility) || blind {
            under
        } else if m.m_flags.imitates {
            disguise
        } else {
            spec_screen_char(m.kind)
        }),
{
    if (m.m_flags.invisible && !defeats_invisibility) || blind {
        under
    } else if m.m_flags.imitates {
        disguise
    } else {
        m.kind.screen_char()
    }
}

/// Whether the rogue at `rogue` sees `spot`: next to it, or, unless
/// `blind`, in the same room with it where that room is not a maze.
pub open spec fn spec_rogue_sees(level: Level, rogue: DungeonSpot, blind: bool, spot: DungeonSpot) -> bool {
    if blind { spec_is_near(spot, rogue) } else { spec_mon_sees(level, rogue, spot.row, spot.col) }
}

/// A spot for a wandering monster: the first of up to 25 spots of floor,
/// passage or an object away from the rogue (as `gr_spot` picks) that the
/// rogue does not see.
pub fn roll_wanderer_spot(rogue: DungeonSpot, blind: bool, level: &Level) -> (r: Option<DungeonSpot>)
    requires
        level.wf(),
    ensures
        r matches Some(s) ==> crate::objects::placing::spec_spot_ok(*level, rogue, s, true) && !spec_rogue_sees(*level, rogue, blind, s),
{
    let mut i: usize = 0;
    while i < 25
        invariant
            level.wf(),
        decreases 25 - i,
    {
        if let Some(spot) = gr_spot(rogue, true, level) {
            let sees = if blind { rogue_is_near(spot, rogue) } else { mon_sees(rogue, spot.row, spot.col, level) };
            if !sees {
                return Some(spot);
            }
        }
        i += 1;
    }
    None
}

/// Puts a wandering monster down: one rolled as `random_wanderer` says,
/// woken, on a spot that `roll_wanderer_spot` picks; nothing happens where
/// either gives none.
pub fn put_wanderer(depth: usize, rogue: DungeonSpot, blind: bool, level: &mut Level, mash: &mut MonsterMash)
    requires
        old(level).wf(),
        old(mash).wf(),
    ensures
        spec_marks_added(*old(level), *final(level)),
        spec_monsters_added(*old(mash), *final(mash), *final(level), depth),
        forall|id: MonsterIndex| #[trigger] final(mash).monsters@.contains_key(id) && !old(mash).monsters@.contains_key(id)
            ==> !spec_rogue_sees(*old(level), rogue, blind, final(mash).monsters@[id].spot),
{
    if let Some(mut monster) = random_wanderer(depth) {
        monster.wake_up();
        if let Some(spot) = roll_wanderer_spot(rogue, blind, level) {
            let ghost l0 = *level;
            airdrop_monster_at(spot.row, spot.col, monster, level, mash);
            proof {
                assert(spec_marks_added(l0, l0)) by {
                    assert forall|r: int, c: int| in_dungeon(r, c) implies #[trigger] l0.cell_at(r, c) == l0.cell_at(r, c)
                        || l0.cell_at(r, c) == (crate::level::cells::DungeonCell { monster: true, ..l0.cell_at(r, c) }) by {}
                }
                lemma_marks_step(l0, l0, *level, spot);
                assert(spec_monsters_added(*old(mash), *old(mash), l0, depth));
                lemma_monsters_step(*old(mash), *old(mash), *mash, l0, *level, depth, monster, spot);
                assert forall|id: MonsterIndex| #[trigger] mash.monsters@.contains_key(id) && !old(mash).monsters@.contains_key(id)
                    implies !spec_rogue_sees(*old(level), rogue, blind, mash.monsters@[id].spot) by {
                    assert(id == monster.id);
                }
            }
            return;
        }
    }
    proof {
        assert forall|r: int, c: int| in_dungeon(r, c) implies #[trigger] level.cell_at(r, c) == old(level).cell_at(r, c)
            || level.cell_at(r, c) == (crate::level::cells::DungeonCell { monster: true, ..old(level).cell_at(r, c) }) by {}
    }
}

} // verus!
