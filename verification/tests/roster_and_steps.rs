use rogue::motion::{run_goes_on, MoveResult, MoveUntil};
use rogue::hit::{fight_goes_on, start_fight, FightStart};
use rogue::level::cells::DungeonCell;
use rogue::level::materials::{CellMaterial, FloorFixture, TunnelFixture, Visibility};
use rogue::level::{add_exp, hp_raise, ExpState, Level, RogueExp};
use rogue::message::push_decimal;
use rogue::monster::flags::MonsterFlags;
use rogue::monster::kind::MonsterKind;
use rogue::monster::mash::{Monster, MonsterMash, StuckCounter};
use rogue::monster::moves::{airdrop_monster_at, MonsterContext};
use rogue::monster::{aggravate, create_monster, mv_aquatars, random_spot_for_monster, show_monsters};
use rogue::motion::{dispatch_move_event, MoveContext, MoveDirection, MoveEffect, MoveEvent};
use rogue::object_what::ObjectWhat;
use rogue::room::DoorDirection;
use rogue::spot::DungeonSpot;

fn floor() -> DungeonCell {
    DungeonCell { material: CellMaterial::Floor(FloorFixture::Nothing), object: ObjectWhat::Nothing, monster: false }
}

fn open_level() -> Level {
    let mut level = Level::new();
    for row in 1..23 {
        for col in 1..79 {
            level.dungeon[row].cols[col] = floor();
        }
    }
    level
}

fn monster(id: u64, kind: MonsterKind, row: i64, col: i64) -> Monster {
    Monster {
        id,
        kind,
        m_flags: MonsterFlags::empty(),
        spot: DungeonSpot { row, col },
        slowed_toggle: false,
        target_spot: None,
        nap_length: 0,
        stuck_counter: StuckCounter { row: 0, col: 0, count: 0 },
        moves_confused: 0,
        stationary_damage: 0,
        hp_to_kill: 10,
        killed: false,
        drop_percent: 0,
    }
}

fn mover(level: Level, row: i64, col: i64) -> MoveContext {
    MoveContext {
        level,
        rogue_row: row,
        rogue_col: col,
        confused: false,
        being_held: false,
        bear_trap: 0,
        has_teleport: false,
        interrupted: false,
        messages: Vec::new(),
    }
}

#[test]
fn decimals_are_written_out() {
    let mut s = String::from("level ");
    push_decimal(&mut s, 0);
    assert_eq!(s, "level 0");
    let mut s = String::new();
    push_decimal(&mut s, 1207);
    assert_eq!(s, "1207");
}

#[test]
fn a_wizard_gains_ten_hit_points() {
    assert_eq!(hp_raise(true), 10);
    for _ in 0..50 {
        let hp = hp_raise(false);
        assert!((3..=10).contains(&hp));
    }
}

#[test]
fn experience_greets_each_new_level() {
    let mut state = ExpState {
        exp: RogueExp { points: 0, level: 1 },
        hp_current: 12,
        hp_max: 12,
        messages: Vec::new(),
        stats_changed: false,
    };
    add_exp(40, true, true, &mut state);
    assert_eq!(state.exp, RogueExp { points: 40, level: 4 });
    assert_eq!(
        state.messages,
        vec!["welcome to level 2".to_string(), "welcome to level 3".to_string(), "welcome to level 4".to_string()]
    );
    assert_eq!(state.hp_current, 42);
    assert_eq!(state.hp_max, 42);
    assert!(state.stats_changed);
}

#[test]
fn a_few_points_only_mark_the_status_line() {
    let mut state = ExpState {
        exp: RogueExp { points: 0, level: 1 },
        hp_current: 12,
        hp_max: 12,
        messages: Vec::new(),
        stats_changed: false,
    };
    add_exp(3, true, false, &mut state);
    assert_eq!(state.exp, RogueExp { points: 3, level: 1 });
    assert!(state.messages.is_empty());
    assert_eq!(state.hp_current, 12);
    assert!(state.stats_changed);
}

#[test]
fn without_promotion_hit_points_stay() {
    let mut state = ExpState {
        exp: RogueExp { points: 0, level: 1 },
        hp_current: 12,
        hp_max: 12,
        messages: Vec::new(),
        stats_changed: false,
    };
    add_exp(10, false, false, &mut state);
    assert_eq!(state.exp.level, 2);
    assert_eq!(state.messages, vec!["welcome to level 2".to_string()]);
    assert_eq!(state.hp_current, 12);
    assert_eq!(state.hp_max, 12);
}

#[test]
fn humming_wakes_every_monster() {
    let mut mash = MonsterMash::new();
    let mut a = monster(1, MonsterKind::Orc, 5, 5);
    a.m_flags.asleep = true;
    a.m_flags.wakens = true;
    let mut b = monster(2, MonsterKind::Xeroc, 7, 7);
    b.m_flags.imitates = true;
    b.m_flags.napping = true;
    mash.add_monster(a);
    mash.add_monster(b);
    let mut messages = Vec::new();
    aggravate(&mut mash, &mut messages);
    assert_eq!(messages, vec!["you hear a high pitched humming noise".to_string()]);
    assert!(!mash.monster(1).m_flags.asleep);
    assert!(!mash.monster(1).m_flags.wakens);
    assert!(!mash.monster(2).m_flags.imitates);
    assert!(mash.monster(2).m_flags.napping);
}

#[test]
fn detection_unmasks_imitators_unless_blind() {
    let mut level = open_level();
    let mut mash = MonsterMash::new();
    let mut x = monster(1, MonsterKind::Xeroc, 5, 5);
    x.m_flags.imitates = true;
    mash.add_monster(x);
    show_monsters(&mut level, &mut mash, true);
    assert!(level.detect_monster);
    assert!(mash.monster(1).m_flags.imitates);
    show_monsters(&mut level, &mut mash, false);
    assert!(!mash.monster(1).m_flags.imitates);
    assert!(mash.monster(1).m_flags.wakens);
}

#[test]
fn only_aquators_next_to_the_rogue_spend_their_move() {
    let mut level = open_level();
    let mut mash = MonsterMash::new();
    airdrop_monster_at(5, 5, monster(1, MonsterKind::Aquator, 5, 5), &mut level, &mut mash);
    airdrop_monster_at(5, 7, monster(2, MonsterKind::Orc, 5, 7), &mut level, &mut mash);
    airdrop_monster_at(15, 15, monster(3, MonsterKind::Aquator, 15, 15), &mut level, &mut mash);
    let ctx = MonsterContext { rogue: DungeonSpot { row: 6, col: 6 }, scare_spots: Vec::new() };
    mv_aquatars(&level, &mut mash, &ctx);
    assert!(mash.monster(1).m_flags.already_moved);
    assert!(!mash.monster(2).m_flags.already_moved);
    assert!(!mash.monster(3).m_flags.already_moved);
}

#[test]
fn a_called_monster_appears_next_to_the_rogue() {
    let mut level = open_level();
    let mut mash = MonsterMash::new();
    let mut messages = Vec::new();
    let mut m = monster(9, MonsterKind::Bat, 0, 0);
    m.m_flags.asleep = true;
    m.m_flags.wanders = true;
    create_monster(DungeonSpot { row: 10, col: 10 }, m, &mut level, &mut mash, &mut messages);
    assert!(messages.is_empty());
    let spot = mash.monster(9).spot;
    assert!((spot.row - 10).abs() <= 1 && (spot.col - 10).abs() <= 1);
    assert!(spot != DungeonSpot { row: 10, col: 10 });
    assert!(level.dungeon[spot.row as usize].cols[spot.col as usize].monster);
    assert!(!mash.monster(9).m_flags.asleep);
}

#[test]
fn no_room_for_a_monster_gives_a_cry() {
    let mut level = Level::new();
    level.dungeon[10].cols[10] = floor();
    let mut mash = MonsterMash::new();
    let mut messages = Vec::new();
    assert_eq!(random_spot_for_monster(10, 10, &level), None);
    create_monster(DungeonSpot { row: 10, col: 10 }, monster(9, MonsterKind::Bat, 0, 0), &mut level, &mut mash, &mut messages);
    assert_eq!(messages, vec!["you hear a faint cry of anguish in the distance".to_string()]);
    assert!(mash.is_empty());
}

#[test]
fn a_single_fit_spot_is_always_found() {
    let mut level = Level::new();
    level.dungeon[10].cols[10] = floor();
    level.dungeon[11].cols[9] = floor();
    for _ in 0..20 {
        assert_eq!(random_spot_for_monster(10, 10, &level), Some(DungeonSpot { row: 11, col: 9 }));
    }
}

#[test]
fn stepping_into_rock_fails_without_a_turn() {
    let mut ctx = mover(Level::new(), 10, 10);
    ctx.level.dungeon[10].cols[10] = floor();
    let r = dispatch_move_event(MoveEvent::Start { direction: MoveDirection::Right, pickup: true }, &mut ctx);
    assert_eq!(r, MoveEffect::Fail { consume_time: false });
}

#[test]
fn stepping_within_a_room() {
    let mut ctx = mover(open_level(), 10, 10);
    let r = dispatch_move_event(MoveEvent::Start { direction: MoveDirection::Right, pickup: true }, &mut ctx);
    assert_eq!(r, MoveEffect::PrepWithinRoom { row: 10, col: 11, rogue_row: 10, rogue_col: 10 });
    let r = dispatch_move_event(MoveEvent::Continue { row: 10, col: 11, rogue_row: 10, rogue_col: 10 }, &mut ctx);
    assert_eq!(r, MoveEffect::Done { row: 10, col: 11, rogue_row: 10, rogue_col: 10 });
    assert_eq!((ctx.rogue_row, ctx.rogue_col), (10, 11));
}

#[test]
fn a_held_rogue_stays_and_is_told() {
    let mut ctx = mover(open_level(), 10, 10);
    ctx.being_held = true;
    let r = dispatch_move_event(MoveEvent::Start { direction: MoveDirection::Up, pickup: false }, &mut ctx);
    assert_eq!(r, MoveEffect::Fail { consume_time: false });
    assert_eq!(ctx.messages, vec!["you are being held".to_string()]);
    assert!(ctx.interrupted);
}

#[test]
fn a_trapped_rogue_loses_the_turn() {
    let mut ctx = mover(open_level(), 10, 10);
    ctx.bear_trap = 3;
    let r = dispatch_move_event(MoveEvent::Start { direction: MoveDirection::Up, pickup: false }, &mut ctx);
    assert_eq!(r, MoveEffect::Fail { consume_time: true });
    assert_eq!(ctx.messages, vec!["you are still stuck in the bear trap".to_string()]);
    assert!(!ctx.interrupted);
}

#[test]
fn a_monster_in_the_way_is_fought_even_by_a_held_rogue() {
    let mut ctx = mover(open_level(), 10, 10);
    ctx.being_held = true;
    ctx.level.dungeon[9].cols[10].monster = true;
    let r = dispatch_move_event(MoveEvent::Start { direction: MoveDirection::Up, pickup: false }, &mut ctx);
    assert_eq!(r, MoveEffect::Fight { row: 9, col: 10 });
    assert!(ctx.messages.is_empty());
}

#[test]
fn doors_and_passages_prepare_their_steps() {
    let mut level = open_level();
    level.dungeon[10].cols[11].material = CellMaterial::Door(DoorDirection::Right, Visibility::Visible);
    level.dungeon[10].cols[12].material = CellMaterial::Tunnel(Visibility::Visible, TunnelFixture::Nothing);
    level.dungeon[10].cols[13].material = CellMaterial::Tunnel(Visibility::Visible, TunnelFixture::Nothing);
    let mut ctx = mover(level, 10, 10);
    let r = dispatch_move_event(MoveEvent::Start { direction: MoveDirection::Right, pickup: false }, &mut ctx);
    assert_eq!(r, MoveEffect::PrepToDoor { row: 10, col: 11, rogue_row: 10, rogue_col: 10 });
    ctx.rogue_col = 11;
    let r = dispatch_move_event(MoveEvent::Start { direction: MoveDirection::Right, pickup: false }, &mut ctx);
    assert_eq!(r, MoveEffect::PrepDoorToTunnel { row: 10, col: 12, rogue_row: 10, rogue_col: 11 });
    ctx.rogue_col = 12;
    let r = dispatch_move_event(MoveEvent::Start { direction: MoveDirection::Right, pickup: false }, &mut ctx);
    assert_eq!(r, MoveEffect::PrepTunnelToTunnel { row: 10, col: 13, rogue_row: 10, rogue_col: 12 });
}

#[test]
fn a_confused_rogue_still_moves_one_step() {
    for _ in 0..20 {
        let mut ctx = mover(open_level(), 10, 10);
        ctx.confused = true;
        match dispatch_move_event(MoveEvent::Start { direction: MoveDirection::Right, pickup: false }, &mut ctx) {
            MoveEffect::PrepWithinRoom { row, col, rogue_row, rogue_col } => {
                assert_eq!((rogue_row, rogue_col), (10, 10));
                assert!((row - 10).abs() <= 1 && (col - 10).abs() <= 1);
            }
            other => panic!("unexpected {:?}", other),
        }
    }
}

#[test]
fn fights_start_only_at_a_real_monster() {
    let mut level = open_level();
    let mut mash = MonsterMash::new();
    let mut messages = Vec::new();
    let rogue = DungeonSpot { row: 10, col: 10 };
    assert_eq!(start_fight(MoveDirection::Right, rogue, &level, &mash, &mut messages), FightStart::NoMonster);
    assert_eq!(messages, vec!["I see no monster there".to_string()]);
    airdrop_monster_at(10, 11, monster(4, MonsterKind::Orc, 10, 11), &mut level, &mut mash);
    let start = start_fight(MoveDirection::Right, rogue, &level, &mash, &mut messages);
    assert_eq!(start, FightStart::Fight { spot: DungeonSpot { row: 10, col: 11 }, mon_id: 4, possible_damage: 4 });
    assert_eq!(messages.len(), 1);
    let edge = DungeonSpot { row: 1, col: 10 };
    assert_eq!(start_fight(MoveDirection::Up, edge, &level, &mash, &mut messages), FightStart::NoTarget);
    let spot = DungeonSpot { row: 10, col: 11 };
    assert!(fight_goes_on(false, 12, 4, false, false, spot, 4, &level, &mash));
    assert!(!fight_goes_on(false, 4, 4, false, false, spot, 4, &level, &mash));
    assert!(fight_goes_on(true, 4, 4, false, false, spot, 4, &level, &mash));
    assert!(!fight_goes_on(true, 12, 4, true, false, spot, 4, &level, &mash));
    assert!(!fight_goes_on(true, 12, 4, false, false, spot, 5, &level, &mash));
    mash.monster_mut(4).m_flags.imitates = true;
    assert_eq!(start_fight(MoveDirection::Right, rogue, &level, &mash, &mut messages), FightStart::NoMonster);
}

#[test]
fn written_numbers_read_back_as_dice() {
    for n in [0usize, 7, 10, 99, 12345] {
        let mut text = String::new();
        push_decimal(&mut text, n);
        text.push_str("d1");
        assert_eq!(rogue::hit::damage_stat::DamageStat::parse(&text)[0].hits, n);
    }
}

#[test]
fn detecting_twice_is_detecting_once() {
    let mut level = open_level();
    let mut mash = MonsterMash::new();
    let mut x = monster(1, MonsterKind::Xeroc, 5, 5);
    x.m_flags.imitates = true;
    mash.add_monster(x);
    show_monsters(&mut level, &mut mash, false);
    let once = mash.monster(1).m_flags;
    show_monsters(&mut level, &mut mash, false);
    assert_eq!(mash.monster(1).m_flags, once);
}

#[test]
fn wake_chances_follow_the_room_and_stealth() {
    assert_eq!(rogue::monster::wake_percent(2, None, 0), 45);
    assert_eq!(rogue::monster::wake_percent(2, Some(2), 0), 75);
    assert_eq!(rogue::monster::wake_percent(2, Some(3), 2), 9);
    assert_eq!(rogue::monster::wake_percent(2, Some(2), 1), 18);
}

#[test]
fn entering_a_room_clears_targets_of_its_monsters() {
    let mut level = open_level();
    level.rooms[0].room_type = rogue::room::RoomType::Room;
    level.rooms[0].top_row = 2;
    level.rooms[0].bottom_row = 8;
    level.rooms[0].left_col = 2;
    level.rooms[0].right_col = 8;
    let mut mash = MonsterMash::new();
    let mut inside = monster(1, MonsterKind::Orc, 5, 5);
    inside.target_spot = Some(DungeonSpot { row: 1, col: 1 });
    let mut outside = monster(2, MonsterKind::Orc, 15, 15);
    outside.target_spot = Some(DungeonSpot { row: 1, col: 1 });
    mash.add_monster(inside);
    mash.add_monster(outside);
    rogue::monster::wake_room(0, true, 5, 2, 0, &level, &mut mash);
    assert_eq!(mash.monster(1).target_spot, None);
    assert_eq!(mash.monster(2).target_spot, Some(DungeonSpot { row: 1, col: 1 }));
    rogue::monster::wake_room(0, false, 5, 2, 0, &level, &mut mash);
    assert_eq!(mash.monster(1).target_spot, Some(DungeonSpot { row: 5, col: 2 }));
}

#[test]
fn runs_stop_at_obstacles_and_sights() {
    assert!(run_goes_on(MoveUntil::Obstacle, MoveResult::Moved, false, true));
    assert!(!run_goes_on(MoveUntil::Obstacle, MoveResult::Moved, true, false));
    assert!(!run_goes_on(MoveUntil::Obstacle, MoveResult::StoppedOnSomething, false, false));
    assert!(run_goes_on(MoveUntil::NearSomething, MoveResult::Moved, false, false));
    assert!(!run_goes_on(MoveUntil::NearSomething, MoveResult::Moved, false, true));
    assert!(!run_goes_on(MoveUntil::NearSomething, MoveResult::MoveFailed, false, false));
}

#[test]
fn a_step_ends_in_a_stop_when_faint_or_confused() {
    assert_eq!(rogue::motion::moved_unless_hungry_or_confused(false, false), MoveResult::Moved);
    assert_eq!(rogue::motion::moved_unless_hungry_or_confused(true, false), MoveResult::StoppedOnSomething);
    assert_eq!(rogue::motion::moved_unless_hungry_or_confused(false, true), MoveResult::StoppedOnSomething);
}
