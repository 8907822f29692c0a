//! Fighting: damage dice, the rogue's chance to hit and the damage it does.
use vstd::prelude::*;

use crate::hit::damage_stat::{spec_hit_cap, spec_hit_max, spec_hit_min, DamageEffect, DamageStat};
use crate::level::{in_dungeon, Level, RogueExp};
use crate::monster::mash::{MonsterIndex, MonsterMash};
use crate::objects::{spec_base_damage, Object};
use crate::random::rand_percent;
use crate::spot::DungeonSpot;
use crate::monster::kind::{spec_damage, spec_m_hit_chance, MonsterKind};
use crate::monster::mash::Monster;
use crate::monster::spec_roster_matches;
use crate::motion::{can_move, spec_can_move, spec_offsets, spec_texts, MoveDirection};
use crate::trap::{is_off_screen, spec_is_off_screen};

pub mod damage_stat;

verus! {

/// The lowest total that `stats` can roll under `effect`.
pub open spec fn spec_damage_min(stats: Seq<DamageStat>, effect: DamageEffect) -> int
    decreases stats.len(),
{
    if stats.len() == 0 {
        0
    } else {
        spec_damage_min(stats.drop_last(), effect) + stats.last().hits * spec_hit_min(
            effect,
            stats.last().damage,
        )
    }
}

/// The highest total that `stats` can roll under `effect`.
pub open spec fn spec_damage_max(stats: Seq<DamageStat>, effect: DamageEffect) -> int
    decreases stats.len(),
{
    if stats.len() == 0 {
        0
    } else {
        spec_damage_max(stats.drop_last(), effect) + stats.last().hits * spec_hit_max(
            effect,
            stats.last().damage,
        )
    }
}

/// The highest total that `stats` can roll under any effect.
pub open spec fn spec_damage_cap(stats: Seq<DamageStat>) -> int
    decreases stats.len(),
{
    if stats.len() == 0 {
        0
    } else {
        spec_damage_cap(stats.drop_last()) + stats.last().hits * spec_hit_cap(stats.last().damage)
    }
}

/// The totals are ordered: nothing below zero, the least below the most,
/// the most below the cap.
proof fn lemma_damage_order(stats: Seq<DamageStat>, effect: DamageEffect)
    ensures
        0 <= spec_damage_min(stats, effect) <= spec_damage_max(stats, effect) <= spec_damage_cap(
            stats,
        ),
    decreases stats.len(),
{
    if stats.len() > 0 {
        lemma_damage_order(stats.drop_last(), effect);
        let s = stats.last();
        let lo = spec_hit_min(effect, s.damage);
        let hi = spec_hit_max(effect, s.damage);
        let cap = spec_hit_cap(s.damage);
        assert(0 <= lo <= hi <= cap);
        vstd::arithmetic::mul::lemma_mul_nonnegative(s.hits as int, lo);
        vstd::arithmetic::mul::lemma_mul_inequality(lo, hi, s.hits as int);
        vstd::arithmetic::mul::lemma_mul_inequality(hi, cap, s.hits as int);
        vstd::arithmetic::mul::lemma_mul_is_commutative(lo, s.hits as int);
        vstd::arithmetic::mul::lemma_mul_is_commutative(hi, s.hits as int);
        vstd::arithmetic::mul::lemma_mul_is_commutative(cap, s.hits as int);
    }
}

/// A prefix of the stats has a cap no larger than the whole.
proof fn lemma_damage_cap_prefix(stats: Seq<DamageStat>, n: int)
    requires
        0 <= n <= stats.len(),
    ensures
        spec_damage_cap(stats.take(n)) <= spec_damage_cap(stats),
    decreases stats.len() - n,
{
    if n < stats.len() {
        lemma_damage_cap_prefix(stats, n + 1);
        assert(stats.take(n + 1).drop_last() == stats.take(n));
        let s = stats[n];
        vstd::arithmetic::mul::lemma_mul_nonnegative(s.hits as int, spec_hit_cap(s.damage));
    } else {
        assert(stats.take(n) == stats);
    }
}

/// The total that `damage_stats` roll under `effect`: each stat's hits
/// summed.  Under `Nothing` the total is exact: hits times damage, summed.
pub fn get_damage(damage_stats: &[DamageStat], effect: DamageEffect) -> (r: isize)
    requires
        spec_damage_cap(damage_stats@) <= isize::MAX,
    ensures
        spec_damage_min(damage_stats@, effect) <= r <= spec_damage_max(damage_stats@, effect),
{
    let mut total: usize = 0;
    let mut i: usize = 0;
    while i < damage_stats.len()
        invariant
            i <= damage_stats@.len(),
            spec_damage_cap(damage_stats@) <= isize::MAX,
            spec_damage_min(damage_stats@.take(i as int), effect) <= total <= spec_damage_max(
                damage_stats@.take(i as int),
                effect,
            ),
        decreases damage_stats@.len() - i,
    {
        let ghost next = damage_stats@.take(i + 1);
        proof {
            assert(next.drop_last() == damage_stats@.take(i as int));
            assert(next.last() == damage_stats@[i as int]);
            lemma_damage_cap_prefix(damage_stats@, i + 1);
            lemma_damage_order(next, effect);
            lemma_damage_order(damage_stats@.take(i as int), effect);
            let s = damage_stats@[i as int];
            vstd::arithmetic::mul::lemma_mul_nonnegative(s.hits as int, spec_hit_min(effect, s.damage));
            vstd::arithmetic::mul::lemma_mul_inequality(
                spec_hit_max(effect, s.damage),
                spec_hit_cap(s.damage),
                s.hits as int,
            );
            vstd::arithmetic::mul::lemma_mul_is_commutative(spec_hit_max(effect, s.damage), s.hits as int);
            vstd::arithmetic::mul::lemma_mul_is_commutative(spec_hit_cap(s.damage), s.hits as int);
        }
        let d = damage_stats[i].roll_damage(effect);
        total = total + d;
        i += 1;
    }
    assert(damage_stats@.take(damage_stats@.len() as int) == damage_stats@);
    proof {
        lemma_damage_order(damage_stats@, effect);
    }
    total as isize
}

/// The damage bonus of a strength.
pub open spec fn spec_damage_for_strength(strength: int) -> int {
    if strength <= 6 {
        strength - 5
    } else if strength <= 14 {
        1
    } else if strength <= 17 {
        3
    } else if strength <= 18 {
        4
    } else if strength <= 20 {
        5
    } else if strength <= 21 {
        6
    } else if strength <= 30 {
        7
    } else {
        8
    }
}

/// The damage bonus of a strength: strength less five up to six, then one,
/// three, four, five, six and seven at 14, 17, 18, 20, 21 and 30, and eight
/// above.
pub fn damage_for_strength(strength: isize) -> (r: isize)
    requires
        strength >= isize::MIN + 5,
    ensures
        r == spec_damage_for_strength(strength as int),
{
    if strength <= 6 {
        return strength - 5;
    }
    if strength <= 14 {
        return 1;
    }
    if strength <= 17 {
        return 3;
    }
    if strength <= 18 {
        return 4;
    }
    if strength <= 20 {
        return 5;
    }
    if strength <= 21 {
        return 6;
    }
    if strength <= 30 {
        return 7;
    }
    8
}

/// An object whose enchanted damage dice can be computed: a weapon is of a
/// known kind and no enchantment is negative.
pub open spec fn spec_enchants_ok(obj: Object) -> bool {
    &&& (obj.what_is is Weapon ==> obj.which_kind < 8)
    &&& 0 <= obj.hit_enchant
    &&& 0 <= obj.d_enchant
}

/// The enchanted damage dice of an object.
pub open spec fn spec_enhanced_damage(obj: Object) -> DamageStat {
    DamageStat {
        hits: (spec_base_damage(obj).hits + obj.hit_enchant) as usize,
        damage: (spec_base_damage(obj).damage + obj.d_enchant) as usize,
    }
}

/// Whether `w` is a roll that `get_w_damage` can give for `obj`.
pub open spec fn spec_w_damage_possible(obj: Option<&Object>, w: int) -> bool {
    match obj {
        Some(o) => if o.what_is is Weapon {
            spec_damage_min(seq![spec_enhanced_damage(*o)], DamageEffect::Roll) <= w
                <= spec_damage_max(seq![spec_enhanced_damage(*o)], DamageEffect::Roll)
        } else {
            w == -1
        },
        None => w == -1,
    }
}

/// The damage that a wielded weapon rolls: its enchanted dice, rolled, or
/// -1 where the rogue wields no weapon.
pub fn get_w_damage(obj: Option<&Object>) -> (r: isize)
    requires
        obj matches Some(o) ==> spec_enchants_ok(*o),
        obj matches Some(o) ==> (o.what_is is Weapon ==> spec_damage_cap(
            seq![spec_enhanced_damage(*o)],
        ) <= isize::MAX),
    ensures
        spec_w_damage_possible(obj, r as int),
{
    if let Some(obj) = obj {
        if obj.is_weapon() {
            let stat = obj.enhanced_damage();
            let stats = [stat];
            assert(stats@ == seq![spec_enhanced_damage(*obj)]);
            return get_damage(&stats, DamageEffect::Roll);
        }
    }
    -1
}

/// The hits of an object's enchanted dice, or one with no object.
pub open spec fn spec_to_hit(obj: Option<&Object>) -> int {
    match obj {
        Some(o) => spec_base_damage(*o).hits + o.hit_enchant,
        None => 1,
    }
}

/// The hits of the wielded weapon's enchanted dice, or one bare-handed.
fn to_hit(obj: Option<&Object>) -> (r: usize)
    requires
        obj matches Some(o) ==> spec_enchants_ok(*o),
    ensures
        r == spec_to_hit(obj),
{
    if let Some(obj) = obj {
        obj.enhanced_damage().hits
    } else {
        1
    }
}

/// The rogue's percent chance to hit: forty, three per hit of the weapon's
/// dice, two per experience level, less the lost levels.
pub fn get_hit_chance(obj: Option<&Object>, buffed_exp: isize, debuf_exp: isize) -> (r: usize)
    requires
        obj matches Some(o) ==> spec_enchants_ok(*o),
        isize::MIN / 4 <= buffed_exp <= isize::MAX / 4,
        isize::MIN / 4 <= debuf_exp <= isize::MAX / 4,
    ensures
        r == (40 + 3 * spec_to_hit(obj) + 2 * buffed_exp - debuf_exp) as usize,
{
    let hits = to_hit(obj);
    proof {
        if let Some(o) = obj {
            crate::objects::lemma_base_damage_small(*o);
        }
    }
    let mut hit_chance: isize = 40;
    hit_chance += 3 * (hits as isize);
    hit_chance += (2 * buffed_exp) - debuf_exp;
    hit_chance as usize
}

/// Half of `x`, rounded toward zero.
pub open spec fn spec_half(x: int) -> int {
    if x >= 0 {
        x / 2
    } else {
        -((-x) / 2)
    }
}

/// The damage of a strike: the weapon's roll, the strength bonus and half
/// the experience levels that count (rounded toward zero, after adding
/// one).
pub fn get_weapon_damage(weapon: Option<&Object>, buffed_str: isize, buffed_exp: isize, debuf_exp: isize) -> (r: isize)
    requires
        weapon matches Some(o) ==> spec_enchants_ok(*o),
        weapon matches Some(o) ==> (o.what_is is Weapon ==> spec_damage_cap(
            seq![spec_enhanced_damage(*o)],
        ) <= isize::MAX / 4),
        isize::MIN / 4 <= buffed_str <= isize::MAX / 4,
        isize::MIN / 4 <= buffed_exp <= isize::MAX / 4,
        isize::MIN / 4 <= debuf_exp <= isize::MAX / 4,
    ensures
        spec_w_damage_possible(
            weapon,
            r - spec_damage_for_strength(buffed_str as int) - spec_half(buffed_exp - debuf_exp + 1),
        ),
{
    let w = get_w_damage(weapon);
    proof {
        if let Some(o) = weapon {
            if o.what_is is Weapon {
                lemma_damage_order(seq![spec_enhanced_damage(*o)], DamageEffect::Roll);
            }
        }
    }
    let mut damage = w;
    damage += damage_for_strength(buffed_str);
    damage += (buffed_exp - debuf_exp + 1) / 2;
    damage
}

/// What a strike of the rogue depends on: the wielded weapon, experience
/// levels with and without what lowers them, strength, and wizard mode.
pub struct StrikeContext {
    pub weapon: Option<Object>,
    pub buffed_exp: isize,
    pub debuf_exp: isize,
    pub buffed_str: isize,
    pub wizard: bool,
}

/// The strike's numbers stay well inside the machine's integers.
pub open spec fn spec_strike_ok(ctx: StrikeContext) -> bool {
    &&& ctx.weapon matches Some(o) ==> spec_enchants_ok(o)
    &&& ctx.weapon matches Some(o) ==> (o.what_is is Weapon ==> spec_damage_cap(seq![spec_enhanced_damage(o)]) <= isize::MAX / 16)
    &&& isize::MIN / 16 <= ctx.buffed_str <= isize::MAX / 16
    &&& isize::MIN / 16 <= ctx.buffed_exp <= isize::MAX / 16
    &&& isize::MIN / 16 <= ctx.debuf_exp <= isize::MAX / 16
}

/// The rogue's percent chance to hit, before wizard mode, as a number.
pub open spec fn spec_hit_chance_value(ctx: StrikeContext) -> int {
    let hits = match ctx.weapon {
        Some(o) => spec_base_damage(o).hits + o.hit_enchant,
        None => 1,
    };
    40 + 3 * hits + 2 * ctx.buffed_exp - ctx.debuf_exp
}

/// The rogue's percent chance to hit with the wielded weapon.
pub fn get_hit_chance_player(ctx: &StrikeContext) -> (r: usize)
    requires
        spec_strike_ok(*ctx),
    ensures
        r == spec_hit_chance_value(*ctx) as usize,
{
    get_hit_chance(ctx.weapon.as_ref(), ctx.buffed_exp, ctx.debuf_exp)
}

/// Whether `w` is a roll of the weapon `weapon` (or -1 for none).
pub open spec fn spec_weapon_roll_possible(weapon: Option<Object>, w: int) -> bool {
    match weapon {
        Some(o) => if o.what_is is Weapon {
            spec_damage_min(seq![spec_enhanced_damage(o)], DamageEffect::Roll) <= w
                <= spec_damage_max(seq![spec_enhanced_damage(o)], DamageEffect::Roll)
        } else {
            w == -1
        },
        None => w == -1,
    }
}

/// Whether `d` is a damage that a strike under `ctx` can do: the weapon's
/// damage roll (or -1 without a weapon), plus the strength and experience
/// bonuses, tripled in wizard mode.
pub open spec fn spec_strike_damage_possible(ctx: StrikeContext, d: int) -> bool {
    &&& ctx.wizard ==> d % 3 == 0
    &&& spec_weapon_roll_possible(
        ctx.weapon,
        (if ctx.wizard { d / 3 } else { d }) - spec_damage_for_strength(ctx.buffed_str as int)
            - spec_half(ctx.buffed_exp - ctx.debuf_exp + 1),
    )
    &&& isize::MIN / 2 <= d <= isize::MAX / 2
}

/// The rogue's chance to hit in percent: 100 with `force_hit`, else its
/// chance to hit; doubled in wizard mode.
pub open spec fn spec_strike_chance(force_hit: bool, ctx: StrikeContext) -> int {
    let chance: int = if force_hit { 100 } else { spec_hit_chance_value(ctx) as usize as int };
    if ctx.wizard { 2 * chance } else { chance }
}

/// The damage of a strike: the weapon's damage, tripled in wizard mode.
pub fn get_strike_damage(ctx: &StrikeContext) -> (r: isize)
    requires
        spec_strike_ok(*ctx),
    ensures
        ctx.wizard ==> r % 3 == 0,
        spec_weapon_roll_possible(
            ctx.weapon,
            (if ctx.wizard { r / 3 } else { r as int }) - spec_damage_for_strength(ctx.buffed_str as int)
                - spec_half(ctx.buffed_exp - ctx.debuf_exp + 1),
        ),
        isize::MIN / 2 <= r <= isize::MAX / 2,
{
    let damage = get_weapon_damage(ctx.weapon.as_ref(), ctx.buffed_str, ctx.buffed_exp, ctx.debuf_exp);
    proof {
        if let Some(o) = ctx.weapon {
            if o.what_is is Weapon {
                lemma_damage_order(seq![spec_enhanced_damage(o)], DamageEffect::Roll);
            }
        }
    }
    let damage = if ctx.wizard { damage * 3 } else { damage };
    damage
}

/// Whether the rogue hits: always with `force_hit`, else with its chance to
/// hit, doubled in wizard mode, in percent.
pub fn roll_hit_success(force_hit: bool, ctx: &StrikeContext) -> (r: bool)
    requires
        spec_strike_ok(*ctx),
        ctx.wizard && !force_hit ==> 0 <= spec_hit_chance_value(*ctx) <= usize::MAX / 2,
    ensures
        ({
            let chance: int = if force_hit { 100 } else { spec_hit_chance_value(*ctx) as usize as int };
            let chance: int = if ctx.wizard { 2 * chance } else { chance };
            &&& chance >= 100 ==> r
            &&& chance == 0 ==> !r
        }),
{
    let hit_chance: usize = if force_hit { 100 } else { get_hit_chance_player(ctx) };
    let hit_chance = if ctx.wizard { hit_chance * 2 } else { hit_chance };
    let percent: i64 = if hit_chance >= 100 { 100 } else { hit_chance as i64 };
    rand_percent(percent)
}

/// What a strike of the rogue does to a monster.
#[derive(Debug, Copy, Clone, Eq, PartialEq, Structural)]
pub enum RogueStrike {
    DefeatsTarget,
    RevealsImitator,
    DamagesTarget,
    MissesTarget,
}

/// The rogue strikes monster `mon_id`: a monster that imitates an object is
/// found out; otherwise a hit takes the strike's damage off the monster's
/// hit points, and defeats it once they are gone.
pub fn roll_strike(mon_id: MonsterIndex, force_hit: bool, ctx: &StrikeContext, mash: &mut MonsterMash) -> (r: RogueStrike)
    requires
        spec_strike_ok(*ctx),
        ctx.wizard && !force_hit ==> 0 <= spec_hit_chance_value(*ctx) <= usize::MAX / 2,
        old(mash).monsters@.contains_key(mon_id),
        isize::MIN / 2 <= old(mash).monsters@[mon_id].hp_to_kill <= isize::MAX / 2,
    ensures
        final(mash).m_moves == old(mash).m_moves,
        final(mash).mon_disappeared == old(mash).mon_disappeared,
        ({
            let m = old(mash).monsters@[mon_id];
            let after = final(mash).monsters@[mon_id];
            &&& final(mash).monsters@ == old(mash).monsters@.insert(mon_id, after)
            &&& after == (crate::monster::mash::Monster { hp_to_kill: after.hp_to_kill, ..m })
            &&& (r is RevealsImitator <==> m.m_flags.imitates)
            &&& (r is RevealsImitator || r is MissesTarget) ==> after == m
            &&& r is DefeatsTarget ==> after.hp_to_kill <= 0
            &&& r is DamagesTarget ==> after.hp_to_kill > 0
            &&& (r is DefeatsTarget || r is DamagesTarget) ==> spec_strike_damage_possible(*ctx, m.hp_to_kill - after.hp_to_kill)
            &&& !m.m_flags.imitates && spec_strike_chance(force_hit, *ctx) >= 100 ==> (r is DefeatsTarget || r is DamagesTarget)
            &&& force_hit && !m.m_flags.imitates ==> (r is DefeatsTarget || r is DamagesTarget)
            &&& !m.m_flags.imitates && spec_strike_chance(force_hit, *ctx) == 0 ==> r is MissesTarget
        }),
{
    if mash.monster(mon_id).imitates() {
        assert(mash.monsters@ =~= old(mash).monsters@.insert(mon_id, mash.monsters@[mon_id]));
        return RogueStrike::RevealsImitator;
    }
    if roll_hit_success(force_hit, ctx) {
        let damage = get_strike_damage(ctx);
        let monster = mash.monster_mut(mon_id);
        monster.hp_to_kill = monster.hp_to_kill - damage;
        if mash.monster(mon_id).hp_to_kill <= 0 {
            RogueStrike::DefeatsTarget
        } else {
            RogueStrike::DamagesTarget
        }
    } else {
        assert(mash.monsters@ =~= old(mash).monsters@.insert(mon_id, mash.monsters@[mon_id]));
        RogueStrike::MissesTarget
    }
}

/// A monster that survives a strike stops going for gold and wakes up.
pub fn alert_surviving_monster(mon_id: MonsterIndex, mash: &mut MonsterMash)
    requires
        old(mash).monsters@.contains_key(mon_id),
    ensures
        final(mash).m_moves == old(mash).m_moves,
        final(mash).monsters@ == old(mash).monsters@.insert(mon_id, crate::monster::mash::Monster {
            m_flags: crate::monster::flags::spec_woken(
                crate::monster::flags::spec_without_gold_seeking(old(mash).monsters@[mon_id].m_flags),
            ),
            ..old(mash).monsters@[mon_id]
        }),
{
    let monster = mash.monster_mut(mon_id);
    monster.m_flags.stop_seeking_gold();
    monster.wake_up();
}

/// Whether the rogue sees invisible monsters: through monster detection,
/// a potion of see invisible, or a ring of it.
pub fn player_defeats_invisibility(detect_monster: bool, see_invisible: bool, ring_see_invisible: bool) -> (r: bool)
    ensures
        r == (detect_monster || see_invisible || ring_see_invisible),
{
    detect_monster || see_invisible || ring_see_invisible
}

/// What the rogue calls monster `mon_id`: "something" when blind or when
/// the monster is invisible and not seen through, a random monster's name
/// when hallucinating, and its own name otherwise.
pub fn mon_name(mon_id: MonsterIndex, blind: bool, hallucinating: bool, defeats_invisibility: bool, mash: &MonsterMash) -> (r: &'static str)
    requires
        mash.monsters@.contains_key(mon_id),
    ensures
        ({
            let m = mash.monsters@[mon_id];
            if blind || (m.m_flags.invisible && !defeats_invisibility) {
                r@ == "something"@
            } else if hallucinating {
                exists|k: crate::monster::kind::MonsterKind| r@ == crate::monster::kind::spec_name(k)
            } else {
                r@ == crate::monster::kind::spec_name(m.kind)
            }
        }),
{
    let monster = mash.monster(mon_id);
    if blind || (monster.m_flags.invisible && !defeats_invisibility) {
        "something"
    } else if hallucinating {
        crate::monster::kind::MonsterKind::random_name()
    } else {
        monster.name()
    }
}

/// The rogue's state that a strike changes: the monster it fights to the
/// death, whether a monster holds it, the message about its last strike,
/// its experience, and whether its stats need showing again.
pub struct RogueHitState {
    pub fight_to_death: Option<MonsterIndex>,
    pub being_held: bool,
    pub hit_message: Option<String>,
    pub exp: RogueExp,
    pub stats_changed: bool,
}

/// The rogue strikes monster `mon_id`.  A defeated monster ends any fight
/// to the death, is taken off the level (freeing the rogue if it held it),
/// and its experience is earned; the report "defeated the" and the
/// monster's name is returned.  A monster found imitating wakes up, with
/// the report "wait, that's a" and its name unless the rogue is blind.  A
/// monster hit or missed is alerted, and unless the rogue fights to the
/// death the last strike is remembered as "you hit" or "you miss".
pub fn rogue_hit(
    mon_id: MonsterIndex,
    force_hit: bool,
    ctx: &StrikeContext,
    blind: bool,
    hallucinating: bool,
    defeats_invisibility: bool,
    state: &mut RogueHitState,
    level: &mut Level,
    mash: &mut MonsterMash,
) -> (r: (RogueStrike, Option<String>))
    requires
        spec_strike_ok(*ctx),
        ctx.wizard && !force_hit ==> 0 <= spec_hit_chance_value(*ctx) <= usize::MAX / 2,
        old(mash).wf(),
        old(level).wf(),
        old(mash).monsters@.contains_key(mon_id),
        in_dungeon(old(mash).monsters@[mon_id].spot.row as int, old(mash).monsters@[mon_id].spot.col as int),
        isize::MIN / 2 <= old(mash).monsters@[mon_id].hp_to_kill <= isize::MAX / 2,
        1 <= old(state).exp.level <= crate::constants::MAX_EXP_LEVEL,
        old(state).exp.points <= crate::constants::MAX_EXP + 1,
    ensures
        final(mash).wf(),
        final(level).wf(),
        final(level).same_but_dungeon(old(level)),
        r.0 is DefeatsTarget <==> !final(mash).monsters@.contains_key(mon_id),
        r.0 is DefeatsTarget ==> final(mash).monsters@ == old(mash).monsters@.remove(mon_id)
            && final(state).fight_to_death is None && final(state).hit_message is None
            && (old(mash).monsters@[mon_id].m_flags.holds ==> !final(state).being_held)
            && final(state).stats_changed
            && r.1 is Some,
        !(r.0 is DefeatsTarget) ==> final(state).exp == old(state).exp && *final(level) == *old(level),
        r.0 is DamagesTarget && old(state).fight_to_death is None ==> (final(state).hit_message matches Some(m) && m@ == "you hit"@),
        r.0 is MissesTarget && old(state).fight_to_death is None ==> (final(state).hit_message matches Some(m) && m@ == "you miss"@),
        (r.0 is DamagesTarget || r.0 is MissesTarget) && old(state).fight_to_death is Some ==> final(state).hit_message == old(state).hit_message,
        (r.0 is DamagesTarget || r.0 is MissesTarget) ==> r.1 is None,
        r.0 is RevealsImitator ==> (r.1 is Some <==> !blind),
        ({
            let m = old(mash).monsters@[mon_id];
            &&& (r.0 is RevealsImitator <==> m.m_flags.imitates)
            &&& !m.m_flags.imitates && spec_strike_chance(force_hit, *ctx) >= 100 ==> (r.0 is DefeatsTarget || r.0 is DamagesTarget)
            &&& force_hit && !m.m_flags.imitates ==> (r.0 is DefeatsTarget || r.0 is DamagesTarget)
            &&& !m.m_flags.imitates && spec_strike_chance(force_hit, *ctx) == 0 ==> r.0 is MissesTarget
            &&& r.0 is RevealsImitator ==> final(mash).monsters@ == old(mash).monsters@.insert(mon_id,
                crate::monster::mash::Monster { m_flags: crate::monster::flags::spec_woken(m.m_flags), ..m })
            &&& r.0 is MissesTarget ==> final(mash).monsters@ == old(mash).monsters@.insert(mon_id,
                crate::monster::mash::Monster {
                    m_flags: crate::monster::flags::spec_woken(crate::monster::flags::spec_without_gold_seeking(m.m_flags)),
                    ..m
                })
            &&& r.0 is DamagesTarget ==> exists|d: int| #[trigger] spec_strike_damage_possible(*ctx, d)
                && final(mash).monsters@ == old(mash).monsters@.insert(mon_id, crate::monster::mash::Monster {
                    hp_to_kill: (m.hp_to_kill - d) as isize,
                    m_flags: crate::monster::flags::spec_woken(crate::monster::flags::spec_without_gold_seeking(m.m_flags)),
                    ..m
                })
                && m.hp_to_kill - d > 0
            &&& r.0 is DefeatsTarget ==> exists|d: int| #[trigger] spec_strike_damage_possible(*ctx, d) && m.hp_to_kill - d <= 0
        }),
{
    match roll_strike(mon_id, force_hit, ctx, mash) {
        RogueStrike::DefeatsTarget => {
            state.fight_to_death = None;
            state.hit_message = None;
            let name = mon_name(mon_id, blind, hallucinating, defeats_invisibility, mash);
            let mut report = String::new();
            report.append("defeated the ");
            report.append(name);
            let spot = mash.monster(mon_id).spot;
            assert(old(mash).monsters@[mon_id].id == mon_id);
            let removed = mash.remove_monster(mon_id);
            level.cell_mut(spot).set_monster(false);
            if removed.m_flags.holds {
                state.being_held = false;
            }
            let points = kill_points(removed.kill_exp());
            state.exp.add_points_take_old(points);
            state.stats_changed = true;
            (RogueStrike::DefeatsTarget, Some(report))
        },
        RogueStrike::RevealsImitator => {
            mash.monster_mut(mon_id).wake_up();
            if !blind {
                let name = mon_name(mon_id, blind, hallucinating, defeats_invisibility, mash);
                let mut report = String::new();
                report.append("wait, that's a ");
                report.append(name);
                report.append("!");
                (RogueStrike::RevealsImitator, Some(report))
            } else {
                (RogueStrike::RevealsImitator, None)
            }
        },
        RogueStrike::DamagesTarget => {
            if state.fight_to_death.is_none() {
                state.hit_message = Some("you hit".to_string());
            }
            alert_surviving_monster(mon_id, mash);
            (RogueStrike::DamagesTarget, None)
        },
        RogueStrike::MissesTarget => {
            if state.fight_to_death.is_none() {
                state.hit_message = Some("you miss".to_string());
            }
            alert_surviving_monster(mon_id, mash);
            (RogueStrike::MissesTarget, None)
        },
    }
}

/// The experience points of a kill, none for a negative amount.
fn kill_points(exp: isize) -> (r: usize)
    ensures
        r == (if exp < 0 { 0 } else { exp as int }),
{
    if exp < 0 { 0 } else { exp as usize }
}

/// Damage `d` done to the rogue with `hp_current` hit points: a blow that
/// takes all its hit points leaves it at none before the damage is taken
/// off, and kills it.  Returns whether the rogue was killed.
pub fn rogue_damage(d: isize, hp_current: &mut isize) -> (killed: bool)
    requires
        d >= 0,
        old(hp_current) - d >= isize::MIN,
    ensures
        killed == (d >= *old(hp_current)),
        *final(hp_current) == (if killed { 0 } else { *old(hp_current) as int }) - d,
{
    let killed = d >= *hp_current;
    if killed {
        *hp_current = 0;
    }
    *hp_current = *hp_current - d;
    killed
}

/// What a monster's strike reads of the game: the depth, the rogue's
/// experience level and that of its rings, the number of rings worn, wizard
/// mode, whether another attacker (such as a flame) strikes in the
/// monster's name and is a flame, and the rogue's armor class.
pub struct MonHitContext {
    pub cur_level: isize,
    pub exp_level: isize,
    pub ring_exp: isize,
    pub r_rings: isize,
    pub wizard: bool,
    pub other: bool,
    pub flame: bool,
    pub armor_class: isize,
}

/// The numbers of a monster's strike fit the short integers that the game
/// keeps them in.
pub open spec fn spec_mon_hit_ok(ctx: MonHitContext) -> bool {
    &&& 0 <= ctx.cur_level <= i16::MAX
    &&& i16::MIN <= ctx.exp_level <= i16::MAX
    &&& i16::MIN <= ctx.ring_exp <= i16::MAX
    &&& i16::MIN <= ctx.r_rings <= i16::MAX
    &&& i16::MIN <= ctx.armor_class <= i16::MAX
}

/// The rogue's side of a monster's strike: the monster it fights, whether
/// its run was interrupted, the message of its own last strike still to be
/// shown, the messages shown, and its hit points.
pub struct RogueDefense {
    pub fight_monster: Option<MonsterIndex>,
    pub interrupted: bool,
    pub hit_message: Option<String>,
    pub messages: Vec<String>,
    pub hp_current: isize,
}

/// How a monster's strike on the rogue went.
#[derive(Debug, Copy, Clone, Eq, PartialEq, Structural)]
pub enum MonHitOutcome {
    /// The monster missed.
    Missed,
    /// The monster hit for `damage` (taken off only when above 0), which
    /// `killed` the rogue or not; `special` tells that the hit does
    /// something besides, which the rest of the game sees to.
    Hit { damage: isize, killed: bool, special: bool },
}

/// Division that rounds toward zero.
pub open spec fn spec_trunc_div(a: int, b: int) -> int {
    if a >= 0 { a / b } else { -((-a) / b) }
}

/// Divides rounding toward zero, as the game's integers do.
fn trunc_div(a: isize, b: isize) -> (r: isize)
    requires
        b > 0,
        a > isize::MIN,
    ensures
        r == spec_trunc_div(a as int, b as int),
{
    if a >= 0 {
        a / b
    } else {
        let q = (-a) / b;
        -q
    }
}

/// A monster's percent chance to hit the rogue: certain from depth
/// fifty-two on, else its kind's chance less twice the experience levels of
/// the rogue and its rings plus the rings worn; halved in wizard mode; and
/// for another attacker less the experience levels once more.
pub open spec fn spec_mon_hit_chance(ctx: MonHitContext, class: int) -> int {
    let c = if ctx.cur_level >= 52 {
        100
    } else {
        class - (2 * ctx.exp_level + 2 * ctx.ring_exp - ctx.r_rings)
    };
    let c = if ctx.wizard { spec_trunc_div(c, 2) } else { c };
    if ctx.other { c - (ctx.exp_level + ctx.ring_exp - ctx.r_rings) } else { c }
}

/// The damage that a rolled total `raw` of a moving monster's dice does:
/// a flame loses the armor class (at least 1 is left where that goes
/// below 0); armor then takes off three percent of the class per hundred,
/// times the damage, or from depth fifty-two on the damage grows by the
/// depth beyond it.
pub open spec fn spec_armored_damage(ctx: MonHitContext, raw: int) -> int {
    let d = if ctx.other && ctx.flame {
        if raw - ctx.armor_class < 0 { 1 } else { raw - ctx.armor_class }
    } else {
        raw
    };
    let minus = if ctx.cur_level >= 52 {
        52 - ctx.cur_level
    } else {
        spec_trunc_div(ctx.armor_class * 3, 100) * d
    };
    d - minus
}

/// The damage in wizard mode: a third of it.
pub open spec fn spec_wizard_damage(wizard: bool, d: int) -> int {
    if wizard { spec_trunc_div(d, 3) } else { d }
}

/// Whether `damage` is what a strike of monster `m` can do: for a monster
/// that holds still its stationary damage, else its dice rolled and
/// lessened by armor; a third in wizard mode.
pub open spec fn spec_mon_damage_possible(ctx: MonHitContext, m: Monster, damage: int) -> bool {
    if m.m_flags.stationary {
        damage == spec_wizard_damage(ctx.wizard, m.stationary_damage as int)
    } else {
        exists|raw: int| spec_damage_min(spec_damage(m.kind), DamageEffect::Roll) <= raw
            <= spec_damage_max(spec_damage(m.kind), DamageEffect::Roll)
            && damage == #[trigger] spec_wizard_damage(ctx.wizard, spec_armored_damage(ctx, raw))
    }
}

/// The message shown of a monster's strike: the rogue's own last strike,
/// if any, then "the", the attacker's name and "hit" or "misses".
pub open spec fn spec_mon_hit_text(hit_message: Option<String>, attacker: Seq<char>, hit: bool) -> Seq<char> {
    let prefix = match hit_message {
        Some(m) => m@ + "  "@,
        None => Seq::empty(),
    };
    prefix + "the "@ + attacker + (if hit { " hit"@ } else { " misses"@ })
}

/// Monster `mon_id` strikes the rogue, under the name `attacker` (its own
/// or another attacker's).  A fight with another monster ends, the monster
/// drops its target, and a rogue that fights no monster is interrupted.
/// The monster hits with the chance of `spec_mon_hit_chance`; unless the
/// rogue fights a monster, "the" and the attacker's name and "misses" or
/// "hit" is shown after the rogue's own last strike, which is then
/// cleared.  A hit does the damage of `spec_mon_damage_possible` (a monster
/// that holds still does one more each time), taken off the rogue's hit
/// points where it is above 0.
pub fn mon_hit(
    mon_id: MonsterIndex,
    attacker: &str,
    ctx: &MonHitContext,
    state: &mut RogueDefense,
    mash: &mut MonsterMash,
) -> (r: MonHitOutcome)
    requires
        old(mash).wf(),
        old(mash).monsters@.contains_key(mon_id),
        spec_mon_hit_ok(*ctx),
        i16::MIN <= old(mash).monsters@[mon_id].stationary_damage < i16::MAX,
        i16::MIN <= old(state).hp_current <= i16::MAX,
    ensures
        final(mash).wf(),
        final(mash).m_moves == old(mash).m_moves,
        final(mash).mon_disappeared == old(mash).mon_disappeared,
        ({
            let m = old(mash).monsters@[mon_id];
            let fight = if old(state).fight_monster == Some(mon_id) { Some(mon_id) } else { None::<MonsterIndex> };
            let chance = spec_mon_hit_chance(*ctx, spec_m_hit_chance(m.kind) as int);
            let hit = r is Hit;
            &&& final(state).fight_monster == fight
            &&& final(state).interrupted == (old(state).interrupted || fight is None)
            &&& chance >= 100 ==> hit
            &&& chance <= 0 ==> !hit
            &&& fight is None ==> final(state).hit_message is None && spec_texts(final(state).messages@)
                == spec_texts(old(state).messages@).push(spec_mon_hit_text(old(state).hit_message, attacker@, hit))
            &&& fight is Some ==> final(state).hit_message == old(state).hit_message
                && final(state).messages@ == old(state).messages@
            &&& final(mash).monsters@ == old(mash).monsters@.insert(mon_id, Monster {
                target_spot: None,
                stationary_damage: if hit && m.m_flags.stationary { (m.stationary_damage + 1) as isize } else { m.stationary_damage },
                ..m
            })
            &&& !hit ==> final(state).hp_current == old(state).hp_current
            &&& r matches MonHitOutcome::Hit { damage, killed, special } ==> {
                &&& spec_mon_damage_possible(*ctx, m, damage as int)
                &&& special == crate::monster::flags::spec_special_hit(m.m_flags)
                &&& killed == (damage > 0 && damage >= old(state).hp_current)
                &&& final(state).hp_current == (if damage > 0 {
                    (if killed { 0 } else { old(state).hp_current as int }) - damage
                } else {
                    old(state).hp_current as int
                })
            }
        }),
{
    if let Some(f) = state.fight_monster {
        if f != mon_id {
            state.fight_monster = None;
        }
    }
    let ghost m = mash.monsters@[mon_id];
    let monster = mash.monster_mut(mon_id);
    monster.target_spot = None;
    let class = monster.m_hit_chance() as isize;
    let stationary = monster.m_flags.stationary;
    let special = monster.m_flags.special_hit();
    if state.fight_monster.is_none() {
        state.interrupted = true;
    }
    let hit_chance = mon_hit_chance(ctx, class);
    let hit = rand_percent(hit_chance as i64);
    if state.fight_monster.is_none() {
        let text = mon_hit_text(&state.hit_message, attacker, hit);
        let ghost before = spec_texts(state.messages@);
        assert(text@ == spec_mon_hit_text(state.hit_message, attacker@, hit));
        state.messages.push(text);
        assert(spec_texts(state.messages@) =~= before.push(spec_mon_hit_text(old(state).hit_message, attacker@, hit)));
        state.hit_message = None;
    }
    if !hit {
        assert(mash.monsters@.dom() =~= old(mash).monsters@.dom());
        return MonHitOutcome::Missed;
    }
    let damage: isize = if !stationary {
        let kind = mash.monster(mon_id).kind;
        moving_damage(kind, ctx)
    } else {
        let monster = mash.monster_mut(mon_id);
        let d = monster.stationary_damage;
        monster.stationary_damage = d + 1;
        if ctx.wizard { trunc_div(d, 3) } else { d }
    };
    let killed = if damage > 0 {
        rogue_damage(damage, &mut state.hp_current)
    } else {
        false
    };
    assert(mash.monsters@.dom() =~= old(mash).monsters@.dom());
    MonHitOutcome::Hit { damage, killed, special }
}

/// A monster's percent chance to hit the rogue, as `spec_mon_hit_chance`
/// says, for a kind whose chance is `class`.
fn mon_hit_chance(ctx: &MonHitContext, class: isize) -> (r: isize)
    requires
        spec_mon_hit_ok(*ctx),
        0 <= class <= 100,
    ensures
        r == spec_mon_hit_chance(*ctx, class as int),
{
    let mut hit_chance: isize = if ctx.cur_level >= 52 {
        100
    } else {
        class - (2 * ctx.exp_level + 2 * ctx.ring_exp - ctx.r_rings)
    };
    if ctx.wizard {
        hit_chance = trunc_div(hit_chance, 2);
    }
    if ctx.other {
        hit_chance = hit_chance - (ctx.exp_level + ctx.ring_exp - ctx.r_rings);
    }
    hit_chance
}

/// The message of a monster's strike, as `spec_mon_hit_text` says.
fn mon_hit_text(hit_message: &Option<String>, attacker: &str, hit: bool) -> (r: String)
    ensures
        r@ == spec_mon_hit_text(*hit_message, attacker@, hit),
{
    let mut text = String::new();
    if let Some(prev) = hit_message {
        text.append(prev.as_str());
        text.append("  ");
    }
    text.append("the ");
    text.append(attacker);
    if hit {
        text.append(" hit");
    } else {
        text.append(" misses");
    }
    text
}

/// The damage of a strike of a moving monster of kind `kind`: its dice
/// rolled and lessened by armor, a third in wizard mode.
fn moving_damage(kind: MonsterKind, ctx: &MonHitContext) -> (r: isize)
    requires
        spec_mon_hit_ok(*ctx),
    ensures
        exists|raw: int| spec_damage_min(spec_damage(kind), DamageEffect::Roll) <= raw
            <= spec_damage_max(spec_damage(kind), DamageEffect::Roll)
            && r == #[trigger] spec_wizard_damage(ctx.wizard, spec_armored_damage(*ctx, raw)),
        -50_000_000 <= r <= 50_000_000,
{
    let stats = kind.damage();
    proof {
        lemma_monster_damage_small(kind);
        lemma_damage_order(stats@, DamageEffect::Roll);
    }
    let raw = get_damage(stats.as_slice(), DamageEffect::Roll);
    let mut d = raw;
    if ctx.other && ctx.flame {
        d = d - ctx.armor_class;
        if d < 0 {
            d = 1;
        }
    }
    assert(-40000 <= d <= 40000);
    let minus: isize = if ctx.cur_level >= 52 {
        52 - ctx.cur_level
    } else {
        let t = trunc_div(ctx.armor_class * 3, 100);
        assert(-1000 <= t <= 1000);
        assert(-40_000_000 <= t * d <= 40_000_000) by (nonlinear_arith)
            requires
                -1000 <= t <= 1000,
                -40000 <= d <= 40000,
        ;
        t * d
    };
    let d = d - minus;
    let d = if ctx.wizard { trunc_div(d, 3) } else { d };
    assert(d == spec_wizard_damage(ctx.wizard, spec_armored_damage(*ctx, raw as int)));
    d
}

/// Dice of at most five hits of at most fourteen total at most seventy
/// each.
proof fn lemma_small_cap(stats: Seq<DamageStat>)
    requires
        forall|i: int| 0 <= i < stats.len() ==> (#[trigger] stats[i]).hits <= 5 && stats[i].damage <= 14,
    ensures
        spec_damage_cap(stats) <= 70 * stats.len(),
    decreases stats.len(),
{
    if stats.len() > 0 {
        let last = stats.last();
        assert(last.hits * spec_hit_cap(last.damage) <= 70) by (nonlinear_arith)
            requires
                last.hits <= 5,
                spec_hit_cap(last.damage) <= 14,
                spec_hit_cap(last.damage) >= 0,
        ;
        let rest = stats.drop_last();
        assert forall|i: int| 0 <= i < rest.len() implies (#[trigger] rest[i]).hits <= 5 && rest[i].damage <= 14 by {
            assert(rest[i] == stats[i]);
        }
        lemma_small_cap(rest);
    }
}

/// A monster's damage dice total at most a hundred and forty.
pub proof fn lemma_monster_damage_small(k: MonsterKind)
    ensures
        spec_damage_cap(spec_damage(k)) <= 140,
{
    let stats = spec_damage(k);
    assert(stats.len() <= 2);
    assert forall|i: int| 0 <= i < stats.len() implies (#[trigger] stats[i]).hits <= 5 && stats[i].damage <= 14 by {}
    lemma_small_cap(stats);
}

/// Without a roll the least and the most that dice do are the same.
proof fn lemma_unrolled_exact(stats: Seq<DamageStat>)
    ensures
        spec_damage_min(stats, DamageEffect::Nothing) == spec_damage_max(stats, DamageEffect::Nothing),
    decreases stats.len(),
{
    if stats.len() > 0 {
        lemma_unrolled_exact(stats.drop_last());
    }
}

/// How a fight that the player called for starts.
#[derive(Debug, Copy, Clone, Eq, PartialEq, Structural)]
pub enum FightStart {
    /// The direction leads off the screen: nothing happens.
    NoTarget,
    /// No monster that the rogue can reach stands there: the rogue says so.
    NoMonster,
    /// The rogue fights monster `mon_id` at `spot`, and stops (unless it
    /// fights to the death) once its hit points are no more than
    /// `possible_damage`.
    Fight { spot: DungeonSpot, mon_id: MonsterIndex, possible_damage: isize },
}

/// Whether a monster that does not imitate an object stands at `spot`.
pub open spec fn spec_real_monster_at(level: &Level, mash: &MonsterMash, spot: DungeonSpot) -> bool {
    &&& level.cell_at(spot.row as int, spot.col as int).monster
    &&& exists|id: MonsterIndex| #[trigger]
        mash.monsters@.contains_key(id) && mash.monsters@[id].spot == spot && !mash.monsters@[id].m_flags.imitates
}

/// The damage that the rogue fears from a monster: two thirds of its dice
/// without a roll, or one less than its damage when it holds still.
pub open spec fn spec_possible_damage(m: Monster) -> int {
    if !m.m_flags.stationary {
        spec_damage_min(spec_damage(m.kind), DamageEffect::Nothing) * 2 / 3
    } else {
        m.stationary_damage - 1
    }
}

/// Starts a fight in `direction` from the rogue at `rogue`: the spot there
/// must be one the rogue can step to, with a monster on it that does not
/// imitate an object, or the rogue says "I see no monster there".
pub fn start_fight(
    direction: MoveDirection,
    rogue: DungeonSpot,
    level: &Level,
    mash: &MonsterMash,
    messages: &mut Vec<String>,
) -> (r: FightStart)
    requires
        level.wf(),
        in_dungeon(rogue.row as int, rogue.col as int),
        spec_roster_matches(level, mash),
        forall|id: MonsterIndex| #[trigger] mash.monsters@.contains_key(id) ==> mash.monsters@[id].stationary_damage > isize::MIN,
    ensures
        ({
            let spot = DungeonSpot {
                row: (rogue.row + spec_offsets(direction).0) as i64,
                col: (rogue.col + spec_offsets(direction).1) as i64,
            };
            if spec_is_off_screen(spot.row, spot.col) {
                r == FightStart::NoTarget && final(messages)@ == old(messages)@
            } else if !spec_can_move(level, rogue.row, rogue.col, spot.row, spot.col) || !spec_real_monster_at(level, mash, spot) {
                r == FightStart::NoMonster && spec_texts(final(messages)@) == spec_texts(old(messages)@).push(
                    "I see no monster there"@,
                )
            } else {
                &&& final(messages)@ == old(messages)@
                &&& r matches FightStart::Fight { spot: s, mon_id, possible_damage }
                &&& s == spot
                &&& mash.monsters@.contains_key(mon_id)
                &&& mash.monsters@[mon_id].spot == spot
                &&& possible_damage == spec_possible_damage(mash.monsters@[mon_id])
            }
        }),
{
    let (row, col) = direction.apply(rogue.row, rogue.col);
    let spot = DungeonSpot { row, col };
    if is_off_screen(row, col) {
        return FightStart::NoTarget;
    }
    let can_step = can_move(rogue.row, rogue.col, row, col, level);
    let found_real = level.cell(spot).has_monster() && match mash.monster_at_spot(row, col) {
        Some(m) => !m.m_flags.imitates,
        None => false,
    };
    proof {
        if level.cell_at(row as int, col as int).monster && (exists|id: MonsterIndex| #[trigger]
            mash.monsters@.contains_key(id) && mash.monsters@[id].spot == spot && !mash.monsters@[id].m_flags.imitates) {
            let id = choose|id: MonsterIndex| #[trigger]
                mash.monsters@.contains_key(id) && mash.monsters@[id].spot == spot && !mash.monsters@[id].m_flags.imitates;
            assert(mash.monsters@.contains_key(id));
        }
    }
    if !can_step || !found_real {
        let ghost before = spec_texts(messages@);
        messages.push("I see no monster there".to_string());
        assert(spec_texts(messages@) =~= before.push("I see no monster there"@));
        return FightStart::NoMonster;
    }
    let mon_id = mash.monster_id_at_spot(row, col).unwrap();
    let monster = mash.monster(mon_id);
    let possible_damage = if !monster.m_flags.stationary {
        proof {
            lemma_monster_damage_small(monster.kind);
        }
        let stats = monster.m_damage();
        proof {
            lemma_damage_order(stats@, DamageEffect::Nothing);
            lemma_unrolled_exact(stats@);
        }
        get_damage(stats.as_slice(), DamageEffect::Nothing) * 2 / 3
    } else {
        monster.stationary_damage - 1
    };
    FightStart::Fight { spot, mon_id, possible_damage }
}

/// Whether a fight goes on after the rogue's blow: not when the rogue, not
/// fighting to the death, has no more hit points than it fears to lose, nor
/// when it was interrupted or the level was left, nor once the monster at
/// the spot is gone or is another one.
pub fn fight_goes_on(
    to_the_death: bool,
    hp_current: isize,
    possible_damage: isize,
    interrupted: bool,
    level_left: bool,
    spot: DungeonSpot,
    mon_id: MonsterIndex,
    level: &Level,
    mash: &MonsterMash,
) -> (r: bool)
    requires
        level.wf(),
        in_dungeon(spot.row as int, spot.col as int),
        spec_roster_matches(level, mash),
    ensures
        r == (!(!to_the_death && hp_current <= possible_damage) && !interrupted && !level_left
            && level.cell_at(spot.row as int, spot.col as int).monster && mash.monsters@.contains_key(mon_id)
            && mash.monsters@[mon_id].spot == spot),
{
    if (!to_the_death && hp_current <= possible_damage) || interrupted || level_left || !level.cell(spot).has_monster() {
        return false;
    }
    match mash.monster_id_at_spot(spot.row, spot.col) {
        Some(id) => id == mon_id,
        None => false,
    }
}

} // verus!
