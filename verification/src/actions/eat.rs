//! Eating: choosing food from the pack and what a meal does.
use vstd::prelude::*;

use crate::constants::{MAX_EXP, MAX_EXP_LEVEL};
use crate::level::RogueExp;
use crate::object_what::ObjectWhat;
use crate::objects::pack::{object_id_with_letter, pack_index};
use crate::objects::{Object, ObjectId, FRUIT, RATION};
use crate::random::{get_rand, rand_percent};

verus! {

/// What the player answers in a menu: closing it, or the letter of an item.
#[derive(Debug, Copy, Clone, Eq, PartialEq, Structural)]
pub enum MenuInput {
    Close,
    Item(char),
}

/// The steps of eating: asking what to eat, taking the answer, checking
/// that it is food, and swallowing it.
#[derive(Debug, Copy, Clone, Eq, PartialEq, Structural)]
pub enum EatMealEvent {
    S1Start,
    S2Select(MenuInput),
    S3Chew(ObjectId),
    S4Swallow(ObjectId),
}

impl EatMealEvent {
    /// Eating starts by asking what to eat.
    pub fn new() -> (r: Self)
        ensures
            r == EatMealEvent::S1Start,
    {
        EatMealEvent::S1Start
    }
}

/// What the rogue says of a meal of food kind `kind`: an awful one is
/// "yuk, that food tasted awful"; a good ration "yum, that tasted good"; a
/// good fruit "my, that was a yummy" and the fruit's name.
pub open spec fn spec_meal_message(kind: u16, fruit: Seq<char>, awful: bool) -> Seq<char> {
    if awful {
        "yuk, that food tasted awful"@
    } else if kind == RATION {
        "yum, that tasted good"@
    } else {
        "my, that was a yummy "@ + fruit
    }
}

/// What a meal gives: moves of food, what the rogue says of it, and
/// whether it earns experience.
#[derive(Debug)]
pub struct Meal {
    pub calories: isize,
    pub message: String,
    pub gains_exp: bool,
}

impl Meal {
    /// A meal of food kind `kind`: fruit always, and a ration with a chance
    /// of 60 percent, tastes good and gives 900 to 1100 moves (a ration
    /// "yum, that tasted good", a fruit "my, that was a yummy" and the
    /// fruit's name); otherwise it tastes awful, gives 700 to 900 moves and
    /// earns experience.
    pub fn prepare(kind: u16, fruit: &str) -> (r: Self)
        ensures
            kind == FRUIT ==> !r.gains_exp,
            !r.gains_exp ==> 900 <= r.calories <= 1100 && (if kind == RATION {
                r.message@ == "yum, that tasted good"@
            } else {
                r.message@ == "my, that was a yummy "@ + fruit@
            }),
            r.gains_exp ==> 700 <= r.calories <= 900 && r.message@ == "yuk, that food tasted awful"@,
    {
        if kind == FRUIT || rand_percent(60) {
            let calories = get_rand(900, 1100) as isize;
            let message = if kind == RATION {
                "yum, that tasted good".to_string()
            } else {
                let mut m = String::new();
                m.append("my, that was a yummy ");
                m.append(fruit);
                m
            };
            Meal { calories, message, gains_exp: false }
        } else {
            let calories = get_rand(700, 900) as isize;
            Meal { calories, message: "yuk, that food tasted awful".to_string(), gains_exp: true }
        }
    }
}

/// The rogue's state that eating reads and changes: its pack, its moves of
/// food, the message line, its experience, and whether its stats need
/// showing again.
pub struct EaterState {
    pub pack: Vec<Object>,
    pub moves_left: isize,
    pub message_line: Option<String>,
    pub exp: RogueExp,
    pub stats_changed: bool,
}

/// What eating hands to the rest of the game: a menu of food to show, a
/// wait for the next command, the next step of eating, or the turn to end
/// (after the rogue's level is brought up to its experience).
#[derive(Debug, Copy, Clone, Eq, PartialEq, Structural)]
pub enum EatStep {
    AwaitMenu,
    AwaitMove,
    Next(EatMealEvent),
    RegMove,
    UpgradeRogueThenRegMove,
}

/// `after` is `pack` with one piece of object `id`, at position `i`,
/// eaten: one fewer of it, or none left.
pub open spec fn spec_swallowed_at(pack: Seq<Object>, after: Seq<Object>, id: ObjectId, i: int) -> bool {
    &&& 0 <= i < pack.len()
    &&& pack[i].id == id
    &&& if pack[i].quantity > 1 {
        after == pack.update(i, Object { quantity: (pack[i].quantity - 1) as i16, ..pack[i] })
    } else {
        after == pack.remove(i)
    }
}

/// A third of `x`, rounded toward zero.
pub open spec fn spec_third(x: int) -> int {
    if x >= 0 { x / 3 } else { -((-x) / 3) }
}

/// Whether no two objects of `pack` share an id.
pub open spec fn spec_ids_unique(pack: Seq<Object>) -> bool {
    forall|i: int, j: int| 0 <= i < j < pack.len() ==> (#[trigger] pack[i]).id != (#[trigger] pack[j]).id
}

/// Swallowing a piece at `i` keeps ids unique, and the object leaves the
/// pack with its last piece.
proof fn lemma_swallow_keeps_ids(pack: Seq<Object>, after: Seq<Object>, id: ObjectId, i: int)
    requires
        spec_swallowed_at(pack, after, id, i),
        spec_ids_unique(pack),
    ensures
        spec_ids_unique(after),
        pack[i].quantity <= 1 ==> !spec_in_pack(after, id),
{
    if pack[i].quantity > 1 {
        assert forall|a: int, b: int| 0 <= a < b < after.len() implies (#[trigger] after[a]).id != (#[trigger] after[b]).id by {
            assert(after[a].id == pack[a].id && after[b].id == pack[b].id);
        }
    } else {
        assert forall|a: int, b: int| 0 <= a < b < after.len() implies (#[trigger] after[a]).id != (#[trigger] after[b]).id by {
            let pa = if a < i { a } else { a + 1 };
            let pb = if b < i { b } else { b + 1 };
            assert(after[a] == pack[pa] && after[b] == pack[pb]);
        }
        if spec_in_pack(after, id) {
            let k = choose|k: int| 0 <= k < after.len() && after[k].id == id;
            let pk = if k < i { k } else { k + 1 };
            assert(after[k] == pack[pk]);
        }
    }
}

/// Whether the pack holds an object with id `id`.
pub open spec fn spec_in_pack(pack: Seq<Object>, id: ObjectId) -> bool {
    exists|i: int| 0 <= i < pack.len() && pack[i].id == id
}

impl EatMealEvent {
    /// One step of eating.  Starting asks "eat what?" and shows the menu.
    /// Closing the menu waits for the next command; a letter that names no
    /// item says "no such item."; any other letter goes on to check that
    /// object.  An object that is not food says "you can't eat that".
    /// Swallowing prepares the meal, leaves a third of the moves of food
    /// (rounded toward zero) plus the meal's, takes one piece off the pack
    /// (or the object itself when it is the last), and says what the meal
    /// was like; an awful meal also earns two experience points.
    pub fn dispatch(self, state: &mut EaterState, fruit: &str) -> (r: EatStep)
        requires
            1 <= old(state).exp.level <= MAX_EXP_LEVEL,
            old(state).exp.points <= MAX_EXP + 1,
            self matches EatMealEvent::S3Chew(id) ==> spec_in_pack(old(state).pack@, id),
            self matches EatMealEvent::S4Swallow(id) ==> spec_in_pack(old(state).pack@, id),
            isize::MIN + 2000 <= old(state).moves_left <= isize::MAX - 2000,
        ensures
            self is S1Start ==> r == EatStep::AwaitMenu && (final(state).message_line matches Some(m) && m@ == "eat what?"@),
            self == EatMealEvent::S2Select(MenuInput::Close) ==> r == EatStep::AwaitMove,
            (self matches EatMealEvent::S2Select(MenuInput::Item(ch)) ==> match r {
                EatStep::Next(EatMealEvent::S3Chew(id)) => exists|i: int| 0 <= i < old(state).pack@.len() && old(state).pack@[i].ichar == ch && old(state).pack@[i].id == id,
                EatStep::AwaitMove => (forall|i: int| 0 <= i < old(state).pack@.len() ==> old(state).pack@[i].ichar != ch)
                    && (final(state).message_line matches Some(m) && m@ == "no such item."@),
                _ => false,
            }),
            (self matches EatMealEvent::S3Chew(id) ==> (r == EatStep::Next(EatMealEvent::S4Swallow(id)) || (r == EatStep::AwaitMove
                && (final(state).message_line matches Some(m) && m@ == "you can't eat that"@)))),
            match self {
                EatMealEvent::S4Swallow(id) => {
                    &&& (r is RegMove || r is UpgradeRogueThenRegMove)
                    &&& final(state).stats_changed
                    &&& spec_third(old(state).moves_left as int) + 700 <= final(state).moves_left
                        <= spec_third(old(state).moves_left as int) + 1100
                    &&& exists|i: int| #[trigger] spec_swallowed_at(old(state).pack@, final(state).pack@, id, i)
                        && (final(state).message_line matches Some(msg) && msg@ == spec_meal_message(
                            old(state).pack@[i].which_kind, fruit@, r is UpgradeRogueThenRegMove))
                    &&& r is UpgradeRogueThenRegMove ==> (final(state).exp.points >= old(state).exp.points + 2
                        || final(state).exp.points == MAX_EXP + 1)
                    &&& r is RegMove ==> final(state).exp == old(state).exp
                    &&& spec_ids_unique(old(state).pack@) ==> spec_ids_unique(final(state).pack@)
                        && (forall|i: int| 0 <= i < old(state).pack@.len() && old(state).pack@[i].id == id
                            && #[trigger] old(state).pack@[i].quantity <= 1 ==> !spec_in_pack(final(state).pack@, id))
                },
                _ => true,
            },
            !(self is S4Swallow) ==> final(state).pack == old(state).pack && final(state).moves_left == old(state).moves_left
                && final(state).exp == old(state).exp,
    {
        match self {
            EatMealEvent::S1Start => {
                state.message_line = Some("eat what?".to_string());
                EatStep::AwaitMenu
            },
            EatMealEvent::S2Select(input) => match input {
                MenuInput::Close => EatStep::AwaitMove,
                MenuInput::Item(ch) => match object_id_with_letter(&state.pack, ch) {
                    None => {
                        state.message_line = Some("no such item.".to_string());
                        EatStep::AwaitMove
                    },
                    Some(obj_id) => EatStep::Next(EatMealEvent::S3Chew(obj_id)),
                },
            },
            EatMealEvent::S3Chew(obj_id) => {
                let index = pack_index(&state.pack, obj_id).unwrap();
                if state.pack[index].what_is != ObjectWhat::Food {
                    state.message_line = Some("you can't eat that".to_string());
                    EatStep::AwaitMove
                } else {
                    EatStep::Next(EatMealEvent::S4Swallow(obj_id))
                }
            },
            EatMealEvent::S4Swallow(obj_id) => {
                let index = pack_index(&state.pack, obj_id).unwrap();
                let meal = Meal::prepare(state.pack[index].which_kind, fruit);
                let ghost before = state.moves_left;
                state.moves_left = state.moves_left / 3 + meal.calories;
                assert(spec_third(before as int) + 700 <= state.moves_left <= spec_third(before as int) + 1100);
                state.stats_changed = true;
                let ghost old_pack = state.pack@;
                if state.pack[index].quantity > 1 {
                    let mut object = state.pack[index];
                    object.quantity = object.quantity - 1;
                    state.pack.set(index, object);
                    assert(state.pack@ == old_pack.update(index as int, Object { quantity: (old_pack[index as int].quantity - 1) as i16, ..old_pack[index as int] }));
                } else {
                    state.pack.remove(index);
                }
                assert(old_pack == old(state).pack@);
                assert(if old_pack[index as int].quantity > 1 {
                    state.pack@ == old_pack.update(index as int, Object { quantity: (old_pack[index as int].quantity - 1) as i16, ..old_pack[index as int] })
                } else {
                    state.pack@ == old_pack.remove(index as int)
                });
                let ghost final_pack = state.pack@;
                assert(old(state).pack@[index as int].id == obj_id);
                state.message_line = Some(meal.message);
                assert(state.pack@ == final_pack);
                assert(spec_swallowed_at(old(state).pack@, final_pack, obj_id, index as int));
                proof {
                    if spec_ids_unique(old(state).pack@) {
                        lemma_swallow_keeps_ids(old(state).pack@, final_pack, obj_id, index as int);
                        assert forall|i: int| 0 <= i < old(state).pack@.len() && old(state).pack@[i].id == obj_id
                            && #[trigger] old(state).pack@[i].quantity <= 1 implies !spec_in_pack(final_pack, obj_id) by {
                            assert(i == index);
                        }
                    }
                }
                if meal.gains_exp {
                    state.exp.add_points_take_old(2);
                    assert(spec_swallowed_at(old(state).pack@, state.pack@, obj_id, index as int));
                    EatStep::UpgradeRogueThenRegMove
                } else {
                    assert(spec_swallowed_at(old(state).pack@, state.pack@, obj_id, index as int));
                    EatStep::RegMove
                }
            },
        }
    }
}

} // verus!
