//! Searching the spots around the rogue for hidden doors, passages and
//! traps.
use vstd::prelude::*;

use crate::level::cells::{spec_cell_is_hidden, DungeonCell};
use crate::level::materials::{law_find_twice, spec_material_is_trap, spec_to_visible};
use crate::level::{in_dungeon, Level};
use crate::random::rand_percent;
use crate::spot::DungeonSpot;
use crate::trap::{is_off_screen, spec_is_off_screen};

verus! {

/// How a search was called for.
#[derive(Debug, Copy, Clone, Eq, PartialEq, Structural)]
pub enum SearchKind {
    /// Searching by itself as the rogue rests or walks, `n` rounds at most.
    Auto { n: usize },
    /// Searching on the player's command.
    Manual,
}

/// What a search reads and changes.
pub struct SearchState {
    /// The level searched.
    pub level: Level,
    /// Where the rogue stands.
    pub rogue: DungeonSpot,
    /// The rogue's experience level with its boosts.
    pub buffed_exp: usize,
    /// Whether the rogue's run of moves was interrupted.
    pub interrupted: bool,
    /// The spots of the traps found, in the order they were found; each is
    /// to be reported by its trap's name.
    pub found_traps: Vec<DungeonSpot>,
    /// Searches on command since the last turn given to the monsters.
    pub reg_search_count: usize,
}

/// Step `k` of the eight around a spot, in the order a search looks at
/// them: clockwise from the upper left.
pub open spec fn spec_search_offset(k: int) -> (int, int) {
    if k == 0 {
        (-1, -1)
    } else if k == 1 {
        (-1, 0)
    } else if k == 2 {
        (-1, 1)
    } else if k == 3 {
        (0, 1)
    } else if k == 4 {
        (1, 1)
    } else if k == 5 {
        (1, 0)
    } else if k == 6 {
        (1, -1)
    } else {
        (0, -1)
    }
}

/// The spot `k` of the search around `rogue`.
pub open spec fn spec_search_spot(rogue: DungeonSpot, k: int) -> DungeonSpot {
    DungeonSpot {
        row: (rogue.row + spec_search_offset(k).0) as i64,
        col: (rogue.col + spec_search_offset(k).1) as i64,
    }
}

/// A search looks at the eight spots around the rogue, each once: every
/// spot it looks at is next to the rogue and not the rogue's own, no two
/// are the same, and every spot next to the rogue is among them.
pub proof fn lemma_search_covers_neighbours(rogue: DungeonSpot)
    requires
        i64::MIN < rogue.row < i64::MAX,
        i64::MIN < rogue.col < i64::MAX,
    ensures
        forall|k: int| 0 <= k < 8 ==> {
            let s = #[trigger] spec_search_spot(rogue, k);
            &&& -1 <= s.row - rogue.row <= 1
            &&& -1 <= s.col - rogue.col <= 1
            &&& s != rogue
        },
        forall|j: int, k: int| 0 <= j < k < 8 ==> #[trigger] spec_search_spot(rogue, j) != #[trigger] spec_search_spot(rogue, k),
        forall|s: DungeonSpot| #[trigger] spec_next_to(rogue, s) ==> exists|k: int| 0 <= k < 8
            && spec_search_spot(rogue, k) == s,
{
    assert forall|s: DungeonSpot| #[trigger] spec_next_to(rogue, s) implies exists|k: int| 0 <= k < 8
        && spec_search_spot(rogue, k) == s by {
        let dr = s.row - rogue.row;
        let dc = s.col - rogue.col;
        let k: int = if dr == -1 && dc == -1 {
            0
        } else if dr == -1 && dc == 0 {
            1
        } else if dr == -1 && dc == 1 {
            2
        } else if dr == 0 && dc == 1 {
            3
        } else if dr == 1 && dc == 1 {
            4
        } else if dr == 1 && dc == 0 {
            5
        } else if dr == 1 && dc == -1 {
            6
        } else {
            7
        };
        assert(spec_search_spot(rogue, k) == s);
    }
}

/// Whether `s` is next to `rogue`: one step away at most in rows and in
/// columns, and not `rogue` itself.
pub open spec fn spec_next_to(rogue: DungeonSpot, s: DungeonSpot) -> bool {
    -1 <= s.row - rogue.row <= 1 && -1 <= s.col - rogue.col <= 1 && s != rogue
}

/// Step `k` of the eight around a spot.
fn search_offset(k: usize) -> (r: (i64, i64))
    requires
        k < 8,
    ensures
        r.0 == spec_search_offset(k as int).0,
        r.1 == spec_search_offset(k as int).1,
{
    if k == 0 {
        (-1, -1)
    } else if k == 1 {
        (-1, 0)
    } else if k == 2 {
        (-1, 1)
    } else if k == 3 {
        (0, 1)
    } else if k == 4 {
        (1, 1)
    } else if k == 5 {
        (1, 0)
    } else if k == 6 {
        (1, -1)
    } else {
        (0, -1)
    }
}

/// Every spot that a search goes through lies on the screen.
proof fn lemma_hidden_around_on_screen(level: &Level, rogue: DungeonSpot, k: int)
    ensures
        forall|j: int|
            0 <= j < spec_hidden_around(level, rogue, k).len() ==> !spec_is_off_screen(
                (#[trigger] spec_hidden_around(level, rogue, k)[j]).row,
                spec_hidden_around(level, rogue, k)[j].col,
            ),
    decreases k,
{
    if k > 0 {
        lemma_hidden_around_on_screen(level, rogue, k - 1);
        let prev = spec_hidden_around(level, rogue, k - 1);
        let cur = spec_hidden_around(level, rogue, k);
        assert forall|j: int| 0 <= j < cur.len() implies !spec_is_off_screen(
            (#[trigger] cur[j]).row,
            cur[j].col,
        ) by {
            if j < prev.len() {
                assert(cur[j] == prev[j]);
            }
        }
    }
}


/// The spots among the first `k` around `rogue` that lie on the screen and
/// hide something, in search order.
pub open spec fn spec_hidden_around(level: &Level, rogue: DungeonSpot, k: int) -> Seq<DungeonSpot>
    decreases k,
{
    if k <= 0 {
        Seq::empty()
    } else {
        let prev = spec_hidden_around(level, rogue, k - 1);
        let s = spec_search_spot(rogue, k - 1);
        if !spec_is_off_screen(s.row, s.col) && spec_cell_is_hidden(level.cell_at(s.row as int, s.col as int)) {
            prev.push(s)
        } else {
            prev
        }
    }
}

/// The cell with its hidden feature found.
pub open spec fn spec_revealed(c: DungeonCell) -> DungeonCell {
    DungeonCell { material: spec_to_visible(c.material), ..c }
}

/// The search of the first `n` of `spots`, where `luck` tells for each spot
/// whether it is found: the spots found, the traps among them, whether the
/// rogue is interrupted, and whether the search has stopped.  A search stops
/// after a spot once the rogue is interrupted; finding a trap interrupts it.
pub open spec fn spec_search_run(
    level: &Level,
    spots: Seq<DungeonSpot>,
    luck: Seq<bool>,
    interrupted: bool,
    n: int,
) -> (Seq<DungeonSpot>, Seq<DungeonSpot>, bool, bool)
    decreases n,
{
    if n <= 0 {
        (Seq::empty(), Seq::empty(), interrupted, false)
    } else {
        let prev = spec_search_run(level, spots, luck, interrupted, n - 1);
        if prev.3 {
            prev
        } else {
            let s = spots[n - 1];
            if luck[n - 1] {
                let is_trap = spec_material_is_trap(
                    spec_to_visible(level.cell_at(s.row as int, s.col as int).material),
                );
                let now = prev.2 || is_trap;
                (prev.0.push(s), if is_trap { prev.1.push(s) } else { prev.1 }, now, now)
            } else {
                (prev.0, prev.1, prev.2, prev.2)
            }
        }
    }
}

/// Whether `after` is what a search from `before` that went through the
/// hidden spots around the rogue with `luck` leaves.
pub open spec fn spec_search_outcome(before: &SearchState, after: &SearchState, luck: Seq<bool>) -> bool {
    let found = spec_hidden_around(&before.level, before.rogue, 8);
    let run = spec_search_run(&before.level, found, luck, before.interrupted, found.len() as int);
    &&& luck.len() == found.len()
    &&& (17 + before.buffed_exp >= 100 ==> forall|k: int| 0 <= k < luck.len() ==> #[trigger] luck[k])
    &&& after.interrupted == run.2
    &&& after.found_traps@ == before.found_traps@ + run.1
    &&& forall|r: int, c: int|
        in_dungeon(r, c) ==> #[trigger] after.level.cell_at(r, c) == (if run.0.contains(
            DungeonSpot { row: r as i64, col: c as i64 },
        ) {
            spec_revealed(before.level.cell_at(r, c))
        } else {
            before.level.cell_at(r, c)
        })
}

/// The rogue searches the eight spots around it.  The spots that hide a
/// door, passage or trap are gone through in order; each is found with a
/// chance of 17 in a hundred plus the rogue's boosted experience level.  A
/// found trap is recorded and interrupts the rogue, and the search stops
/// after any spot that leaves the rogue interrupted.  Once the hidden spots
/// have been gone through the search ends, whatever its kind.  Where nothing
/// around is hidden, a search on command is counted, and every second one
/// gives the monsters a turn: the result says whether it does.
pub fn search(kind: SearchKind, state: &mut SearchState) -> (yield_turn: bool)
    requires
        old(state).level.wf(),
        in_dungeon(old(state).rogue.row as int, old(state).rogue.col as int),
        old(state).buffed_exp <= 1000,
        old(state).reg_search_count < usize::MAX,
    ensures
        final(state).level.wf(),
        final(state).level.same_but_dungeon(&old(state).level),
        final(state).rogue == old(state).rogue,
        final(state).buffed_exp == old(state).buffed_exp,
        ({
            let found = spec_hidden_around(&old(state).level, old(state).rogue, 8);
            if found.len() == 0 {
                &&& forall|r: int, c: int| #[trigger] final(state).level.cell_at(r, c) == old(state).level.cell_at(r, c)
                &&& final(state).interrupted == old(state).interrupted
                &&& final(state).found_traps@ == old(state).found_traps@
                &&& (kind is Manual ==> final(state).reg_search_count == old(state).reg_search_count + 1
                    && yield_turn == (final(state).reg_search_count % 2 == 0))
                &&& (kind is Auto ==> final(state).reg_search_count == old(state).reg_search_count
                    && !yield_turn)
            } else {
                &&& !yield_turn
                &&& final(state).reg_search_count == old(state).reg_search_count
                &&& exists|luck: Seq<bool>| #[trigger] spec_search_outcome(old(state), final(state), luck)
            }
        }),
{
    let ghost old_level = state.level;
    let center = state.rogue;
    let mut found: Vec<DungeonSpot> = Vec::new();
    let mut k: usize = 0;
    while k < 8
        invariant
            k <= 8,
            state.level == old_level,
            old_level == old(state).level,
            old_level.wf(),
            center == old(state).rogue,
            in_dungeon(center.row as int, center.col as int),
            found@ == spec_hidden_around(&old_level, center, k as int),
        decreases 8 - k,
    {
        let (dr, dc) = search_offset(k);
        let spot = DungeonSpot { row: center.row + dr, col: center.col + dc };
        assert(spot == spec_search_spot(center, k as int));
        if !is_off_screen(spot.row, spot.col) && state.level.cell(spot).is_any_hidden() {
            found.push(spot);
        }
        k += 1;
    }
    if found.len() == 0 {
        if kind == SearchKind::Manual {
            state.reg_search_count = state.reg_search_count + 1;
            return state.reg_search_count % 2 == 0;
        }
        return false;
    }
    let percent: i64 = 17 + state.buffed_exp as i64;
    proof {
        lemma_hidden_around_on_screen(&old_level, center, 8);
    }
    let ghost mut luck: Seq<bool> = Seq::empty();
    let ghost old_traps = state.found_traps@;
    let ghost interrupted0 = state.interrupted;
    let mut done = false;
    let mut i: usize = 0;
    while i < found.len()
        invariant
            i <= found@.len(),
            found@ == spec_hidden_around(&old_level, center, 8),
            found@.len() > 0,
            forall|j: int| 0 <= j < found@.len() ==> in_dungeon((#[trigger] found@[j]).row as int, found@[j].col as int),
            old_level == old(state).level,
            interrupted0 == old(state).interrupted,
            old_traps == old(state).found_traps@,
            percent == 17 + old(state).buffed_exp,
            state.rogue == old(state).rogue,
            state.buffed_exp == old(state).buffed_exp,
            state.reg_search_count == old(state).reg_search_count,
            state.level.wf(),
            state.level.same_but_dungeon(&old_level),
            luck.len() == i,
            percent >= 100 ==> forall|j: int| 0 <= j < luck.len() ==> #[trigger] luck[j],
            ({
                let run = spec_search_run(&old_level, found@, luck, interrupted0, i as int);
                &&& state.interrupted == run.2
                &&& done == run.3
                &&& state.found_traps@ == old_traps + run.1
                &&& forall|r: int, c: int|
                    in_dungeon(r, c) ==> #[trigger] state.level.cell_at(r, c) == (if run.0.contains(
                        DungeonSpot { row: r as i64, col: c as i64 },
                    ) {
                        spec_revealed(old_level.cell_at(r, c))
                    } else {
                        old_level.cell_at(r, c)
                    })
            }),
        decreases found@.len() - i,
    {
        let ghost prev_run = spec_search_run(&old_level, found@, luck, interrupted0, i as int);
        let spot = found[i];
        if done {
            proof {
                let old_luck = luck;
                luck = luck.push(true);
                lemma_search_run_prefix(&old_level, found@, old_luck, luck, interrupted0, i as int);
            }
        } else {
            let lucky = rand_percent(percent);
            proof {
                let old_luck = luck;
                luck = luck.push(lucky);
                lemma_search_run_prefix(&old_level, found@, old_luck, luck, interrupted0, i as int);
            }
            if lucky {
                let ghost before = state.level;
                proof {
                    law_find_twice(old_level.cell_at(spot.row as int, spot.col as int).material);
                }
                state.level.cell_mut(spot).set_visible();
                let is_trap = state.level.cell(spot).is_any_trap();
                if is_trap {
                    state.found_traps.push(spot);
                    state.interrupted = true;
                }
                proof {
                    let run = spec_search_run(&old_level, found@, luck, interrupted0, i as int + 1);
                    assert(run.1 == (if is_trap { prev_run.1.push(spot) } else { prev_run.1 }));
                    assert forall|r: int, c: int| in_dungeon(r, c) implies #[trigger] state.level.cell_at(r, c)
                        == (if run.0.contains(DungeonSpot { row: r as i64, col: c as i64 }) {
                        spec_revealed(old_level.cell_at(r, c))
                    } else {
                        old_level.cell_at(r, c)
                    }) by {
                        let q = DungeonSpot { row: r as i64, col: c as i64 };
                        assert(run.0 == prev_run.0.push(spot));
                        if q == spot {
                            assert(run.0[run.0.len() - 1] == q);
                            assert(run.0.contains(q));
                        } else {
                            assert(run.0.contains(q) == prev_run.0.contains(q)) by {
                                if run.0.contains(q) {
                                    let w = choose|w: int| 0 <= w < run.0.len() && run.0[w] == q;
                                    assert(w < prev_run.0.len());
                                    assert(prev_run.0[w] == q);
                                }
                                if prev_run.0.contains(q) {
                                    let w = choose|w: int| 0 <= w < prev_run.0.len() && prev_run.0[w] == q;
                                    assert(run.0[w] == q);
                                }
                            }
                            assert(before.cell_at(r, c) == state.level.cell_at(r, c));
                        }
                    }
                    assert(state.found_traps@ =~= old_traps + run.1);
                }
                done = state.interrupted;
            } else {
                done = state.interrupted;
            }
        }
        i += 1;
    }
    proof {
        assert(luck.len() == found@.len());
        assert(spec_search_outcome(old(state), state, luck));
    }
    false
}

/// The run over the first `n` spots reads only the first `n` lucks.
proof fn lemma_search_run_prefix(
    level: &Level,
    spots: Seq<DungeonSpot>,
    luck1: Seq<bool>,
    luck2: Seq<bool>,
    interrupted: bool,
    n: int,
)
    requires
        n <= luck1.len(),
        n <= luck2.len(),
        forall|k: int| 0 <= k < n ==> luck1[k] == luck2[k],
    ensures
        spec_search_run(level, spots, luck1, interrupted, n) == spec_search_run(level, spots, luck2, interrupted, n),
    decreases n,
{
    if n > 0 {
        lemma_search_run_prefix(level, spots, luck1, luck2, interrupted, n - 1);
    }
}

} // verus!
