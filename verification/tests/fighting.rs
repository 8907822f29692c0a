use rogue::hit::damage_stat::{DamageEffect, DamageStat};
use rogue::hit::{
    alert_surviving_monster, damage_for_strength, get_damage, get_hit_chance, get_w_damage,
    get_weapon_damage, mon_name, player_defeats_invisibility, rogue_damage, rogue_hit, roll_strike,
    RogueHitState, RogueStrike, StrikeContext,
};
use rogue::level::{Level, RogueExp};
use rogue::monster::flags::MonsterFlags;
use rogue::monster::kind::MonsterKind;
use rogue::monster::mash::{Monster, MonsterMash, StuckCounter};
use rogue::object_what::ObjectWhat;
use rogue::objects::{Object, ObjectId};
use rogue::spot::DungeonSpot;

fn weapon(kind: u16, hit_enchant: i16, d_enchant: isize) -> Object {
    Object {
        id: ObjectId(1),
        what_is: ObjectWhat::Weapon,
        which_kind: kind,
        in_use_flags: 1,
        quantity: 1,
        ichar: 'a',
        is_protected: 0,
        is_cursed: 0,
        class: 0,
        identified: true,
        spot: DungeonSpot { row: 0, col: 0 },
        hit_enchant,
        d_enchant,
        quiver: 0,
        picked_up: 0,
    }
}

fn monster(id: u64, kind: MonsterKind, row: i64, col: i64) -> Monster {
    Monster {
        id,
        kind,
        m_flags: MonsterFlags::empty(),
        spot: DungeonSpot { row, col },
        slowed_toggle: false,
        target_spot: None,
        nap_length: 0,
        stuck_counter: StuckCounter { row: 0, col: 0, count: 0 },
        moves_confused: 0,
        stationary_damage: 0,
        hp_to_kill: 10,
        killed: false,
        drop_percent: 0,
    }
}

#[test]
fn damage_for_strength_table() {
    assert_eq!(damage_for_strength(3), -2);
    assert_eq!(damage_for_strength(6), 1);
    assert_eq!(damage_for_strength(7), 1);
    assert_eq!(damage_for_strength(14), 1);
    assert_eq!(damage_for_strength(15), 3);
    assert_eq!(damage_for_strength(17), 3);
    assert_eq!(damage_for_strength(18), 4);
    assert_eq!(damage_for_strength(20), 5);
    assert_eq!(damage_for_strength(21), 6);
    assert_eq!(damage_for_strength(30), 7);
    assert_eq!(damage_for_strength(31), 8);
}

#[test]
fn get_damage_without_roll_is_exact() {
    let stats = [DamageStat { hits: 2, damage: 3 }, DamageStat { hits: 1, damage: 6 }];
    assert_eq!(get_damage(&stats, DamageEffect::Nothing), 12);
}

#[test]
fn get_damage_rolls_within_bounds() {
    let stats = [DamageStat { hits: 3, damage: 4 }, DamageStat { hits: 1, damage: 0 }];
    for _ in 0..200 {
        let d = get_damage(&stats, DamageEffect::Roll);
        assert!(d >= 3 && d <= 13);
    }
}

#[test]
fn get_w_damage_without_weapon() {
    assert_eq!(get_w_damage(None), -1);
    let mut food = weapon(0, 0, 0);
    food.what_is = ObjectWhat::Food;
    assert_eq!(get_w_damage(Some(&food)), -1);
}

#[test]
fn get_w_damage_rolls_the_enchanted_dice() {
    let mace = weapon(5, 1, 2);
    for _ in 0..200 {
        let d = get_w_damage(Some(&mace));
        assert!(d >= 3 && d <= 15);
    }
}

#[test]
fn hit_chance_counts_weapon_hits_and_levels() {
    assert_eq!(get_hit_chance(None, 1, 0), 45);
    let sword = weapon(6, 1, 0);
    assert_eq!(get_hit_chance(Some(&sword), 3, 1), 40 + 12 + 6 - 1);
}

#[test]
fn weapon_damage_adds_strength_and_half_the_levels() {
    let dart = weapon(1, 0, 0);
    assert_eq!(get_weapon_damage(Some(&dart), 16, 3, 0), 1 + 3 + 2);
    assert_eq!(get_weapon_damage(None, 10, 1, 0), -1 + 1 + 1);
    assert_eq!(get_weapon_damage(None, 10, 0, 4), -1 + 1 - 1);
}

#[test]
fn rogue_damage_kills_at_zero() {
    let mut hp: isize = 10;
    assert!(!rogue_damage(4, &mut hp));
    assert_eq!(hp, 6);
    assert!(rogue_damage(6, &mut hp));
    assert_eq!(hp, -6);
}

#[test]
fn imitator_is_revealed() {
    let mut mash = MonsterMash::new();
    let mut m = monster(7, MonsterKind::Xeroc, 3, 3);
    m.m_flags.imitates = true;
    mash.add_monster(m);
    let ctx = StrikeContext { weapon: None, buffed_exp: 1, debuf_exp: 0, buffed_str: 16, wizard: false };
    assert_eq!(roll_strike(7, true, &ctx, &mut mash), RogueStrike::RevealsImitator);
}

#[test]
fn forced_strike_hits_and_may_defeat() {
    let mut mash = MonsterMash::new();
    let mut m = monster(7, MonsterKind::Bat, 3, 3);
    m.hp_to_kill = 100;
    mash.add_monster(m);
    let ctx = StrikeContext { weapon: None, buffed_exp: 1, debuf_exp: 0, buffed_str: 16, wizard: false };
    let strike = roll_strike(7, true, &ctx, &mut mash);
    assert_eq!(strike, RogueStrike::DamagesTarget);
    assert_eq!(mash.monster(7).hp_to_kill, 100 - 3);
}

#[test]
fn rogue_hit_defeats_and_earns_experience() {
    let mut level = Level::new();
    let mut mash = MonsterMash::new();
    let mut m = monster(9, MonsterKind::Bat, 4, 5);
    m.hp_to_kill = 1;
    mash.add_monster(m);
    level.dungeon[4].cols[5].monster = true;
    let ctx = StrikeContext { weapon: None, buffed_exp: 1, debuf_exp: 0, buffed_str: 16, wizard: false };
    let mut state = RogueHitState {
        fight_to_death: Some(9),
        being_held: false,
        hit_message: None,
        exp: RogueExp::new(),
        stats_changed: false,
    };
    let (strike, report) = rogue_hit(9, true, &ctx, false, false, false, &mut state, &mut level, &mut mash);
    assert_eq!(strike, RogueStrike::DefeatsTarget);
    assert_eq!(report, Some("defeated the bat".to_string()));
    assert!(mash.is_empty());
    assert!(!level.dungeon[4].cols[5].monster);
    assert_eq!(state.exp.points, 2);
    assert_eq!(state.fight_to_death, None);
    assert!(state.stats_changed);
}

#[test]
fn rogue_hit_remembers_a_hit() {
    let mut level = Level::new();
    let mut mash = MonsterMash::new();
    let mut m = monster(9, MonsterKind::Dragon, 4, 5);
    m.hp_to_kill = 1000;
    m.m_flags.asleep = true;
    m.m_flags.seeks_gold = true;
    mash.add_monster(m);
    let ctx = StrikeContext { weapon: None, buffed_exp: 1, debuf_exp: 0, buffed_str: 16, wizard: false };
    let mut state = RogueHitState { fight_to_death: None, being_held: false, hit_message: None, exp: RogueExp::new(), stats_changed: false };
    let (strike, report) = rogue_hit(9, true, &ctx, false, false, false, &mut state, &mut level, &mut mash);
    assert_eq!(strike, RogueStrike::DamagesTarget);
    assert_eq!(report, None);
    assert_eq!(state.hit_message, Some("you hit".to_string()));
    assert!(!mash.monster(9).m_flags.asleep);
    assert!(!mash.monster(9).m_flags.seeks_gold);
}

#[test]
fn alerted_monster_wakes() {
    let mut mash = MonsterMash::new();
    let mut m = monster(2, MonsterKind::Emu, 1, 1);
    m.m_flags.asleep = true;
    mash.add_monster(m);
    alert_surviving_monster(2, &mut mash);
    assert!(!mash.monster(2).m_flags.asleep);
}

#[test]
fn names_of_monsters() {
    let mut mash = MonsterMash::new();
    let mut m = monster(3, MonsterKind::Phantom, 1, 1);
    m.m_flags.invisible = true;
    mash.add_monster(m);
    assert_eq!(mon_name(3, false, false, false, &mash), "something");
    assert_eq!(mon_name(3, false, false, true, &mash), "phantom");
    assert_eq!(mon_name(3, true, false, true, &mash), "something");
    assert!(player_defeats_invisibility(false, false, true));
    assert!(!player_defeats_invisibility(false, false, false));
}
