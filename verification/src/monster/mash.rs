//! The monsters of a level, each under its id, and the state of one monster.
use std::collections::HashMap;
use vstd::prelude::*;

use crate::hit::damage_stat::DamageStat;
use crate::monster::flags::{spec_without_confuses, spec_woken, MonsterFlags};
use crate::monster::kind::{spec_damage, spec_kill_exp, spec_m_hit_chance, spec_name, MonsterKind};
use crate::level::cells::DungeonCell;
use crate::level::{in_dungeon, spec_room_mark, Level};
use crate::room::RoomMark;
use crate::spot::{DungeonSpot, LevelSpot};

verus! {

broadcast use vstd::std_specs::hash::group_hash_axioms;

/// The id under which a monster is kept.
pub type MonsterIndex = u64;

/// The monsters of a level, kept under their ids.
#[derive(Debug, Clone)]
pub struct MonsterMash {
    pub monsters: HashMap<MonsterIndex, Monster>,
    pub m_moves: usize,
    pub mon_disappeared: bool,
}

/// Calls `std::collections::HashMap::get_mut` for the key `id`.  Its
/// documentation says that it gives a mutable reference to the value under
/// the key, or `None` where the key is absent; the contract states that the
/// reference starts at the stored value and that whatever it ends at is
/// what the map then holds under the key.
#[verifier::external_body]
fn monster_entry_mut<'a>(monsters: &'a mut HashMap<MonsterIndex, Monster>, id: MonsterIndex) -> (r:
    Option<&'a mut Monster>)
    ensures
        match r {
            Some(m) => {
                &&& old(monsters)@.contains_key(id)
                &&& *m == old(monsters)@[id]
                &&& final(monsters)@ == old(monsters)@.insert(id, *final(m))
            },
            None => {
                &&& !old(monsters)@.contains_key(id)
                &&& final(monsters)@ == old(monsters)@
            },
        },
{
    monsters.get_mut(&id)
}

impl MonsterMash {
    /// Every monster is kept under its own id.
    pub open spec fn wf(&self) -> bool {
        forall|id: MonsterIndex| #[trigger]
            self.monsters@.contains_key(id) ==> self.monsters@[id].id == id
    }

    /// An empty roster.
    pub fn new() -> (r: Self)
        ensures
            r.wf(),
            r.monsters@ == Map::<MonsterIndex, Monster>::empty(),
            r.m_moves == 0,
            !r.mon_disappeared,
    {
        MonsterMash { monsters: HashMap::new(), m_moves: 0, mon_disappeared: false }
    }

    /// Removes every monster and restarts the count of moves.
    pub fn clear(&mut self)
        ensures
            final(self).wf(),
            final(self).monsters@ == Map::<MonsterIndex, Monster>::empty(),
            final(self).m_moves == 0,
            final(self).mon_disappeared == old(self).mon_disappeared,
    {
        self.monsters.clear();
        self.m_moves = 0;
    }

    /// Whether no monster is kept.
    pub fn is_empty(&self) -> (r: bool)
        ensures
            r == (self.monsters@.dom().len() == 0),
    {
        self.monsters.is_empty()
    }

    /// The ids of all monsters, each once.
    pub fn monster_ids(&self) -> (r: Vec<MonsterIndex>)
        ensures
            r@.to_set() == self.monsters@.dom(),
            r@.no_duplicates(),
    {
        let mut ids: Vec<MonsterIndex> = Vec::new();
        let ghost keys = vstd::std_specs::iter::IteratorSpec::remaining(
            &vstd::std_specs::hash::spec_keys_iter(&self.monsters),
        );
        for id in it: self.monsters.keys()
            invariant
                it.seq() == keys,
                ids@ == keys.take(it.index() as int).map_values(|k: &MonsterIndex| *k),
        {
            ids.push(*id);
        }
        proof {
            assert(keys.take(keys.len() as int) == keys);
            assert(ids@ == keys.unref());
        }
        ids
    }

    /// References to all monsters, one for each id.
    pub fn monsters(&self) -> (r: Vec<&Monster>)
        ensures
            r@.len() == self.monsters@.dom().len(),
            forall|i: int| 0 <= i < r@.len() ==> self.monsters@.values().contains(*#[trigger] r@[i]),
    {
        let ids = self.monster_ids();
        let mut out: Vec<&Monster> = Vec::new();
        proof {
            ids@.unique_seq_to_set();
        }
        let mut i: usize = 0;
        while i < ids.len()
            invariant
                i <= ids@.len(),
                ids@.to_set() == self.monsters@.dom(),
                ids@.len() == self.monsters@.dom().len(),
                out@.len() == i,
                forall|j: int| 0 <= j < i ==> self.monsters@.values().contains(*#[trigger] out@[j]),
            decreases ids@.len() - i,
        {
            let id = ids[i];
            assert(ids@.to_set().contains(ids@[i as int]));
            let m = self.monster(id);
            assert(self.monsters@.values().contains(self.monsters@[id]));
            out.push(m);
            i += 1;
        }
        out
    }

    /// Keeps `monster` under its id, replacing any monster kept there.
    pub fn add_monster(&mut self, monster: Monster)
        requires
            old(self).wf(),
        ensures
            final(self).wf(),
            final(self).monsters@ == old(self).monsters@.insert(monster.id, monster),
            final(self).m_moves == old(self).m_moves,
            final(self).mon_disappeared == old(self).mon_disappeared,
    {
        let id = monster.id();
        self.monsters.insert(id, monster);
    }

    /// Takes the monster kept under `id` out of the roster.
    pub fn remove_monster(&mut self, id: MonsterIndex) -> (r: Monster)
        requires
            old(self).wf(),
            old(self).monsters@.contains_key(id),
        ensures
            final(self).wf(),
            r == old(self).monsters@[id],
            final(self).monsters@ == old(self).monsters@.remove(id),
            final(self).m_moves == old(self).m_moves,
            final(self).mon_disappeared == old(self).mon_disappeared,
    {
        self.monsters.remove(&id).unwrap()
    }

    /// The id of a monster that stands at `row`, `col`, if any does.
    pub fn monster_id_at_spot(&self, row: i64, col: i64) -> (r: Option<MonsterIndex>)
        ensures
            match r {
                Some(id) => self.monsters@.contains_key(id) && self.monsters@[id].spot
                    == (DungeonSpot { row, col }),
                None => forall|id: MonsterIndex| #[trigger]
                    self.monsters@.contains_key(id) ==> self.monsters@[id].spot != (DungeonSpot {
                        row,
                        col,
                    }),
            },
    {
        let spot = DungeonSpot { row, col };
        let ids = self.monster_ids();
        let mut i: usize = 0;
        while i < ids.len()
            invariant
                i <= ids@.len(),
                spot == (DungeonSpot { row, col }),
                ids@.to_set() == self.monsters@.dom(),
                forall|j: int| 0 <= j < i ==> self.monsters@[#[trigger] ids@[j]].spot != spot,
            decreases ids@.len() - i,
        {
            let id = ids[i];
            assert(ids@.to_set().contains(ids@[i as int]));
            let here = self.monster(id).spot;
            if here.row == row && here.col == col {
                assert(here == spot);
                return Some(id);
            }
            i += 1;
        }
        proof {
            assert forall|id: MonsterIndex| #[trigger]
                self.monsters@.contains_key(id) implies self.monsters@[id].spot != spot by {
                assert(ids@.to_set().contains(id));
                let j = choose|j: int| 0 <= j < ids@.len() && ids@[j] == id;
                assert(self.monsters@[ids@[j]].spot != spot);
            }
        }
        None
    }

    /// The monster that stands at `row`, `col`, if any does.
    pub fn monster_at_spot(&self, row: i64, col: i64) -> (r: Option<&Monster>)
        ensures
            match r {
                Some(m) => exists|id: MonsterIndex| #[trigger]
                    self.monsters@.contains_key(id) && self.monsters@[id] == *m && m.spot
                        == (DungeonSpot { row, col }),
                None => forall|id: MonsterIndex| #[trigger]
                    self.monsters@.contains_key(id) ==> self.monsters@[id].spot != (DungeonSpot {
                        row,
                        col,
                    }),
            },
    {
        match self.monster_id_at_spot(row, col) {
            Some(id) => Some(self.monster(id)),
            None => None,
        }
    }

    /// The monster that stands at `row`, `col`, if any does, to change in
    /// place; whatever it is changed to stays kept under its id.
    pub fn monster_at_spot_mut(&mut self, row: i64, col: i64) -> (r: Option<&mut Monster>)
        ensures
            match r {
                Some(m) => exists|id: MonsterIndex| #[trigger]
                    old(self).monsters@.contains_key(id) && old(self).monsters@[id] == *m
                        && m.spot == (DungeonSpot { row, col }) && final(self).monsters@
                        == old(self).monsters@.insert(id, *final(m)),
                None => {
                    &&& forall|id: MonsterIndex| #[trigger]
                        old(self).monsters@.contains_key(id) ==> old(self).monsters@[id].spot
                            != (DungeonSpot { row, col })
                    &&& final(self).monsters@ == old(self).monsters@
                },
            },
            final(self).m_moves == old(self).m_moves,
            final(self).mon_disappeared == old(self).mon_disappeared,
    {
        match self.monster_id_at_spot(row, col) {
            Some(id) => monster_entry_mut(&mut self.monsters, id),
            None => None,
        }
    }

    /// The flags of the monster kept under `id`.
    pub fn monster_flags(&self, id: MonsterIndex) -> (r: &MonsterFlags)
        requires
            self.monsters@.contains_key(id),
        ensures
            *r == self.monsters@[id].m_flags,
    {
        let monster = self.monster(id);
        &monster.m_flags
    }

    /// The flags of the monster kept under `id`, to change in place.
    pub fn monster_flags_mut(&mut self, id: MonsterIndex) -> (r: &mut MonsterFlags)
        requires
            old(self).monsters@.contains_key(id),
        ensures
            *r == old(self).monsters@[id].m_flags,
            final(self).monsters@ == old(self).monsters@.insert(
                id,
                Monster { m_flags: *final(r), ..old(self).monsters@[id] },
            ),
            final(self).m_moves == old(self).m_moves,
            final(self).mon_disappeared == old(self).mon_disappeared,
    {
        let monster = self.monster_mut(id);
        &mut monster.m_flags
    }

    /// Applies the test `f` to the monster kept under `id`.
    pub fn test_monster(&self, id: MonsterIndex, f: impl Fn(&Monster) -> bool) -> (r: bool)
        requires
            self.monsters@.contains_key(id),
            f.requires((&self.monsters@[id],)),
        ensures
            f.ensures((&self.monsters@[id],), r),
    {
        let monster = self.monster(id);
        f(monster)
    }

    /// Where the monster kept under `id` stands.
    pub fn monster_to_spot(&self, id: MonsterIndex) -> (r: DungeonSpot)
        requires
            self.monsters@.contains_key(id),
        ensures
            r == self.monsters@[id].spot,
    {
        self.monster(id).spot
    }

    /// The monster kept under `id`, if there is one.
    pub fn try_monster(&self, id: MonsterIndex) -> (r: Option<&Monster>)
        ensures
            match r {
                Some(m) => self.monsters@.contains_key(id) && *m == self.monsters@[id],
                None => !self.monsters@.contains_key(id),
            },
    {
        self.monsters.get(&id)
    }

    /// The monster kept under `id`.
    pub fn monster(&self, id: MonsterIndex) -> (r: &Monster)
        requires
            self.monsters@.contains_key(id),
        ensures
            *r == self.monsters@[id],
    {
        self.monsters.get(&id).unwrap()
    }

    /// The monster kept under `id`, to change in place; whatever it is
    /// changed to stays kept under `id`.
    pub fn monster_mut(&mut self, id: MonsterIndex) -> (r: &mut Monster)
        requires
            old(self).monsters@.contains_key(id),
        ensures
            *r == old(self).monsters@[id],
            final(self).monsters@ == old(self).monsters@.insert(id, *final(r)),
            final(self).m_moves == old(self).m_moves,
            final(self).mon_disappeared == old(self).mon_disappeared,
    {
        monster_entry_mut(&mut self.monsters, id).unwrap()
    }
}

/// How long a monster has been stuck at one spot.
#[derive(Debug, Copy, Clone, Eq, PartialEq, Structural)]
pub struct StuckCounter {
    pub row: i64,
    pub col: i64,
    pub count: usize,
}

impl StuckCounter {
    /// Records that the monster is at `row`, `col`: one more turn at the same
    /// spot, or a fresh count at a new one.
    pub fn log_row_col(&mut self, row: i64, col: i64)
        requires
            old(self).row == row && old(self).col == col ==> old(self).count < usize::MAX,
        ensures
            *final(self) == (if old(self).row == row && old(self).col == col {
                StuckCounter { count: (old(self).count + 1) as usize, ..*old(self) }
            } else {
                StuckCounter { row, col, count: 0 }
            }),
    {
        if self.row == row && self.col == col {
            self.count += 1;
        } else {
            self.row = row;
            self.col = col;
            self.count = 0;
        }
    }

    /// Restarts the count.
    pub fn reset(&mut self)
        ensures
            *final(self) == (StuckCounter { count: 0, ..*old(self) }),
    {
        self.count = 0;
    }
}

impl Default for StuckCounter {
    fn default() -> (r: Self)
        ensures
            r == (StuckCounter { row: 0, col: 0, count: 0 }),
    {
        StuckCounter { row: 0, col: 0, count: 0 }
    }
}

/// A monster and its state.
#[derive(Debug, Copy, Clone, Eq, PartialEq, Structural)]
pub struct Monster {
    pub id: u64,
    pub kind: MonsterKind,
    pub m_flags: MonsterFlags,
    pub spot: DungeonSpot,
    pub slowed_toggle: bool,
    pub target_spot: Option<DungeonSpot>,
    pub nap_length: isize,
    pub stuck_counter: StuckCounter,
    pub moves_confused: isize,
    pub stationary_damage: isize,
    pub hp_to_kill: isize,
    pub killed: bool,
    pub drop_percent: usize,
}

impl Monster {
    /// Whether the monster imitates an object.
    pub fn imitates(&self) -> (r: bool)
        ensures
            r == self.m_flags.imitates,
    {
        self.m_flags.imitates
    }

    /// Whether the monster flies.
    pub fn flies(&self) -> (r: bool)
        ensures
            r == self.m_flags.flies,
    {
        self.m_flags.flies
    }

    /// Whether the monster is napping.
    pub fn is_napping(&self) -> (r: bool)
        ensures
            r == self.m_flags.napping,
    {
        self.m_flags.napping
    }

    /// Whether the monster is asleep.
    pub fn is_asleep(&self) -> (r: bool)
        ensures
            r == self.m_flags.asleep,
    {
        self.m_flags.asleep
    }

    /// Whether the monster is invisible.
    pub fn is_invisible(&self) -> (r: bool)
        ensures
            r == self.m_flags.invisible,
    {
        self.m_flags.invisible
    }

    /// Whether the monster is hasted.
    pub fn is_hasted(&self) -> (r: bool)
        ensures
            r == self.m_flags.hasted,
    {
        self.m_flags.hasted
    }

    /// Whether the monster is slowed.
    pub fn is_slowed(&self) -> (r: bool)
        ensures
            r == self.m_flags.slowed,
    {
        self.m_flags.slowed
    }

    /// Whether the monster is confused.
    pub fn is_confused(&self) -> (r: bool)
        ensures
            r == self.m_flags.confused,
    {
        self.m_flags.confused
    }

    /// Whether the monster wanders.
    pub fn wanders(&self) -> (r: bool)
        ensures
            r == self.m_flags.wanders,
    {
        self.m_flags.wanders
    }

    /// One turn of a nap: the nap shortens, and a nap that runs out wakes the
    /// monster.
    pub fn do_nap(&mut self)
        requires
            old(self).nap_length > isize::MIN,
        ensures
            final(self).nap_length == old(self).nap_length - 1,
            final(self).m_flags == (if old(self).nap_length - 1 <= 0 {
                MonsterFlags { napping: false, asleep: false, ..old(self).m_flags }
            } else {
                old(self).m_flags
            }),
            *final(self) == (Monster {
                nap_length: final(self).nap_length,
                m_flags: final(self).m_flags,
                ..*old(self)
            }),
    {
        self.nap_length -= 1;
        if self.nap_length <= 0 {
            self.m_flags.napping = false;
            self.m_flags.asleep = false;
        }
    }

    /// Moves the monster to `row`, `col`.
    pub fn set_spot(&mut self, row: i64, col: i64)
        ensures
            *final(self) == (Monster { spot: DungeonSpot { row, col }, ..*old(self) }),
    {
        self.spot.row = row;
        self.spot.col = col;
    }

    /// Gives the monster the target `row`, `col`.
    pub fn set_target_spot(&mut self, row: i64, col: i64)
        ensures
            *final(self) == (Monster { target_spot: Some(DungeonSpot { row, col }), ..*old(self) }),
    {
        self.target_spot = Some(DungeonSpot { row, col })
    }

    /// Gives the monster the target `spot`.
    pub fn set_target(&mut self, spot: LevelSpot)
        requires
            spot.row <= i64::MAX as usize,
            spot.col <= i64::MAX as usize,
        ensures
            *final(self) == (Monster {
                target_spot: Some(DungeonSpot { row: spot.row as i64, col: spot.col as i64 }),
                ..*old(self)
            }),
    {
        let (row, col) = spot.i64();
        self.target_spot = Some(DungeonSpot { row, col })
    }

    /// Drops the target and restarts the count of stuck turns.
    pub fn clear_target_reset_stuck(&mut self)
        ensures
            *final(self) == (Monster {
                target_spot: None,
                stuck_counter: StuckCounter { count: 0, ..old(self).stuck_counter },
                ..*old(self)
            }),
    {
        self.target_spot = None;
        self.stuck_counter.reset();
    }

    /// Drops the target once the monster stands on it.
    pub fn clear_target_spot_if_reached(&mut self)
        ensures
            *final(self) == (if old(self).target_spot == Some(old(self).spot) {
                Monster { target_spot: None, ..*old(self) }
            } else {
                *old(self)
            }),
    {
        if self.at_target_spot() {
            self.target_spot = None
        }
    }

    /// One turn of confusion: it shortens, and once it runs out the monster
    /// stops confusing the rogue.
    pub fn decrement_moves_confused(&mut self)
        requires
            old(self).moves_confused > isize::MIN,
        ensures
            final(self).moves_confused == old(self).moves_confused - 1,
            final(self).m_flags == (if old(self).moves_confused - 1 <= 0 {
                spec_without_confuses(old(self).m_flags)
            } else {
                old(self).m_flags
            }),
            *final(self) == (Monster {
                moves_confused: final(self).moves_confused,
                m_flags: final(self).m_flags,
                ..*old(self)
            }),
    {
        let count = self.moves_confused - 1;
        let flags = self.m_flags;
        let new_flags = if count <= 0 { flags.without_confuses() } else { flags };
        self.moves_confused = count;
        self.m_flags = new_flags;
    }

    /// The cell of `level` that the monster stands on, to change in place.
    pub fn cell_mut<'a>(&self, level: &'a mut Level) -> (r: &'a mut DungeonCell)
        requires
            old(level).wf(),
            in_dungeon(self.spot.row as int, self.spot.col as int),
        ensures
            *r == old(level).cell_at(self.spot.row as int, self.spot.col as int),
            final(level).wf(),
            final(level).cell_at(self.spot.row as int, self.spot.col as int) == *final(r),
            final(level).same_cells_except(old(level), self.spot.row as int, self.spot.col as int),
            final(level).rooms == old(level).rooms,
            final(level).traps == old(level).traps,
    {
        level.cell_mut(self.spot)
    }

    /// The room the monster stands in.
    pub fn cur_room(&self, level: &Level) -> (r: RoomMark)
        ensures
            r == spec_room_mark(level.rooms@, self.spot.row, self.spot.col),
    {
        level.room(self.spot.row, self.spot.col)
    }

    /// Whether the monster stands in room `rn`.
    pub fn in_room(&self, rn: usize, level: &Level) -> (r: bool)
        ensures
            r == (spec_room_mark(level.rooms@, self.spot.row, self.spot.col) == RoomMark::Cavern(rn)),
    {
        if let RoomMark::Cavern(mon_room) = self.cur_room(level) {
            mon_room == rn
        } else {
            false
        }
    }

    /// The monster's id.
    pub fn id(&self) -> (r: u64)
        ensures
            r == self.id,
    {
        self.id
    }

    /// Experience for killing the monster.
    pub fn kill_exp(&self) -> (r: isize)
        ensures
            r == spec_kill_exp(self.kind),
    {
        self.kind.kill_exp()
    }

    /// Percent chance that the monster hits.
    pub fn m_hit_chance(&self) -> (r: usize)
        ensures
            r == spec_m_hit_chance(self.kind),
    {
        self.kind.m_hit_chance()
    }

    /// The monster's damage dice.
    pub fn m_damage(&self) -> (r: Vec<DamageStat>)
        ensures
            r@ == spec_damage(self.kind),
    {
        self.kind.damage()
    }

    /// Whether the monster wakes when the rogue comes near.
    pub fn wakens(&self) -> (r: bool)
        ensures
            r == self.m_flags.wakens,
    {
        self.m_flags.wakens
    }

    /// Whether the monster wakens or wanders.
    pub fn wanders_or_wakens(&self) -> (r: bool)
        ensures
            r == (self.m_flags.wakens || self.m_flags.wanders),
    {
        self.m_flags.wakens || self.m_flags.wanders
    }

    /// The name of the monster's kind.
    pub fn name(&self) -> (r: &'static str)
        ensures
            r@ == spec_name(self.kind),
    {
        self.kind.name()
    }

    /// The monster's target, or `fallback_spot` where it has none.
    pub fn target_spot_or(&self, fallback_spot: DungeonSpot) -> (r: DungeonSpot)
        ensures
            r == (match self.target_spot {
                Some(t) => t,
                None => fallback_spot,
            }),
    {
        if let Some(target_spot) = self.target_spot {
            target_spot
        } else {
            fallback_spot
        }
    }

    /// Whether the monster stands on its target.
    pub fn at_target_spot(&self) -> (r: bool)
        ensures
            r == (self.target_spot == Some(self.spot)),
    {
        match self.target_spot {
            Some(t) => t == self.spot,
            None => false,
        }
    }

    /// The letter that shows the monster.
    pub fn as_char(&self) -> (r: char)
        ensures
            r == crate::monster::kind::spec_screen_char(self.kind),
    {
        self.kind.screen_char()
    }

    /// Flips the toggle that lets a slowed monster move every other turn.
    pub fn flip_slowed_toggle(&mut self)
        ensures
            *final(self) == (Monster { slowed_toggle: !old(self).slowed_toggle, ..*old(self) }),
    {
        if self.slowed_toggle {
            self.slowed_toggle = false;
        } else {
            self.slowed_toggle = true;
        }
    }

    /// The toggle that lets a slowed monster move every other turn.
    pub fn is_slowed_toggle(&self) -> (r: bool)
        ensures
            r == self.slowed_toggle,
    {
        self.slowed_toggle
    }

    /// Wakes the monster unless it is napping.
    pub fn wake_up(&mut self)
        ensures
            *final(self) == (Monster { m_flags: spec_woken(old(self).m_flags), ..*old(self) }),
    {
        self.m_flags.wake_up();
    }
}

} // verus!
