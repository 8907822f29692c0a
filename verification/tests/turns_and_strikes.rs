use rogue::hit::{mon_hit, MonHitContext, MonHitOutcome, RogueDefense};
use rogue::level::cells::DungeonCell;
use rogue::level::materials::{CellMaterial, FloorFixture, TunnelFixture, Visibility};
use rogue::level::Level;
use rogue::monster::flags::MonsterFlags;
use rogue::monster::kind::MonsterKind;
use rogue::monster::mash::{Monster, MonsterMash, StuckCounter};
use rogue::monster::moves::{
    airdrop_monster_at, flies_first, hasted_goes_on, monster_turns, moves_after_flight, mv_monster, party_monsters,
    MonsterContext, MonsterStep,
};
use rogue::objects::placing::put_stairs;
use rogue::motion::{
    finish_move, move_result, reg_move_verdict, room_after_step, HungerCheckResult, MoveEffect, MoveEvent, MoveOutcome,
    MoveResult,
};
use rogue::object_what::ObjectWhat;
use rogue::room::{RoomMark, RoomType};
use rogue::spot::DungeonSpot;

fn floor() -> DungeonCell {
    DungeonCell { material: CellMaterial::Floor(FloorFixture::Nothing), object: ObjectWhat::Nothing, monster: false }
}

fn open_level() -> Level {
    let mut level = Level::new();
    for row in 1..23 {
        for col in 1..79 {
            level.dungeon[row].cols[col] = floor();
        }
    }
    level
}

fn monster(id: u64, row: i64, col: i64) -> Monster {
    Monster {
        id,
        kind: MonsterKind::Orc,
        m_flags: MonsterFlags::empty(),
        spot: DungeonSpot { row, col },
        slowed_toggle: false,
        target_spot: None,
        nap_length: 0,
        stuck_counter: StuckCounter { row: 0, col: 0, count: 0 },
        moves_confused: 0,
        stationary_damage: 0,
        hp_to_kill: 10,
        killed: false,
        drop_percent: 0,
    }
}

fn deep_ctx() -> MonHitContext {
    MonHitContext {
        cur_level: 60,
        exp_level: 1,
        ring_exp: 0,
        r_rings: 0,
        wizard: false,
        other: false,
        flame: false,
        armor_class: 0,
    }
}

fn defense(hp: isize) -> RogueDefense {
    RogueDefense { fight_monster: None, interrupted: false, hit_message: None, messages: Vec::new(), hp_current: hp }
}

#[test]
fn finishing_a_step_by_its_effect() {
    let plain = floor();
    assert_eq!(finish_move(MoveEffect::Fail { consume_time: true }, plain, true, false), MoveOutcome::Failed { turn_passes: true });
    assert_eq!(finish_move(MoveEffect::Teleport, plain, true, false), MoveOutcome::Teleported);
    assert_eq!(finish_move(MoveEffect::Fight { row: 3, col: 4 }, plain, true, false), MoveOutcome::Fights { row: 3, col: 4 });
    assert_eq!(
        finish_move(MoveEffect::PrepToDoor { row: 3, col: 4, rogue_row: 3, rogue_col: 5 }, plain, true, false),
        MoveOutcome::GoesOn { next: MoveEvent::Continue { row: 3, col: 4, rogue_row: 3, rogue_col: 5 } }
    );
    let done = MoveEffect::Done { row: 3, col: 4, rogue_row: 3, rogue_col: 5 };
    assert_eq!(finish_move(done, plain, true, false), MoveOutcome::Walks);
    let with_object = DungeonCell { object: ObjectWhat::Food, ..plain };
    assert_eq!(finish_move(done, with_object, false, false), MoveOutcome::MovedOnto);
    assert_eq!(finish_move(done, with_object, true, true), MoveOutcome::Hovers);
    assert_eq!(finish_move(done, with_object, true, false), MoveOutcome::PicksUp);
    let trap = DungeonCell { material: CellMaterial::Floor(FloorFixture::Trap(Visibility::Visible)), ..plain };
    assert_eq!(finish_move(done, trap, true, false), MoveOutcome::StopsAt { springs_trap: true });
    assert_eq!(finish_move(done, trap, true, true), MoveOutcome::StopsAt { springs_trap: false });
    let stairs = DungeonCell { material: CellMaterial::Tunnel(Visibility::Visible, TunnelFixture::Stairs), ..plain };
    assert_eq!(finish_move(done, stairs, true, false), MoveOutcome::StopsAt { springs_trap: false });
}

#[test]
fn results_of_a_finished_step() {
    assert_eq!(move_result(MoveOutcome::Walks, false, false, false), Some(MoveResult::Moved));
    assert_eq!(move_result(MoveOutcome::Walks, false, true, false), Some(MoveResult::StoppedOnSomething));
    assert_eq!(move_result(MoveOutcome::Fights { row: 1, col: 1 }, false, false, false), Some(MoveResult::MoveFailed));
    assert_eq!(move_result(MoveOutcome::PicksUp, true, false, false), Some(MoveResult::Moved));
    assert_eq!(move_result(MoveOutcome::PicksUp, false, false, false), Some(MoveResult::StoppedOnSomething));
    assert_eq!(
        move_result(MoveOutcome::GoesOn { next: MoveEvent::Continue { row: 1, col: 1, rogue_row: 1, rogue_col: 2 } }, false, false, false),
        None
    );
}

#[test]
fn hasted_monsters_take_two_turns_and_slowed_ones_every_other() {
    let mut level = open_level();
    let mut mash = MonsterMash::new();
    let mut fast = monster(1, 5, 5);
    fast.m_flags.hasted = true;
    let mut slow = monster(2, 6, 6);
    slow.m_flags.slowed = true;
    let plain = monster(3, 7, 7);
    airdrop_monster_at(5, 5, fast, &mut level, &mut mash);
    airdrop_monster_at(6, 6, slow, &mut level, &mut mash);
    airdrop_monster_at(7, 7, plain, &mut level, &mut mash);
    assert!(monster_turns(1, &mut mash).is_empty());
    let mut turns = monster_turns(0, &mut mash);
    turns.sort();
    assert_eq!(turns, vec![(1, 2), (2, 0), (3, 1)]);
    assert!(mash.monster(2).slowed_toggle);
    let mut turns = monster_turns(2, &mut mash);
    turns.sort();
    assert_eq!(turns, vec![(1, 2), (2, 1), (3, 1)]);
    assert!(!mash.monster(2).slowed_toggle);
}

#[test]
fn a_monster_deep_down_always_hits() {
    let mut mash = MonsterMash::new();
    let mut m = monster(1, 5, 5);
    m.m_flags.stationary = true;
    m.stationary_damage = 4;
    m.target_spot = Some(DungeonSpot { row: 1, col: 1 });
    mash.add_monster(m);
    let mut state = defense(12);
    state.hit_message = Some("you miss".to_string());
    let r = mon_hit(1, "orc", &deep_ctx(), &mut state, &mut mash);
    assert_eq!(r, MonHitOutcome::Hit { damage: 4, killed: false, special: false });
    assert_eq!(state.hp_current, 8);
    assert!(state.interrupted);
    assert_eq!(state.messages, vec!["you miss  the orc hit".to_string()]);
    assert!(state.hit_message.is_none());
    assert_eq!(mash.monster(1).stationary_damage, 5);
    assert!(mash.monster(1).target_spot.is_none());
}

#[test]
fn a_monster_that_holds_still_can_kill() {
    let mut mash = MonsterMash::new();
    let mut m = monster(1, 5, 5);
    m.m_flags.stationary = true;
    m.stationary_damage = 7;
    mash.add_monster(m);
    let mut state = defense(5);
    state.fight_monster = Some(1);
    let r = mon_hit(1, "flytrap", &deep_ctx(), &mut state, &mut mash);
    assert_eq!(r, MonHitOutcome::Hit { damage: 7, killed: true, special: false });
    assert_eq!(state.hp_current, -7);
    assert!(state.messages.is_empty());
    assert!(!state.interrupted);
}

#[test]
fn a_party_fills_a_room_with_woken_monsters() {
    let mut level = open_level();
    level.rooms[4].top_row = 8;
    level.rooms[4].bottom_row = 12;
    level.rooms[4].left_col = 30;
    level.rooms[4].right_col = 36;
    level.rooms[4].room_type = RoomType::Room;
    let mut mash = MonsterMash::new();
    let rolled: Vec<Monster> = (10..14).map(|id| monster(id, 0, 0)).collect();
    party_monsters(4, 2, rolled, &mut level, &mut mash);
    assert_eq!(mash.monster_ids().len(), 4);
    for id in mash.monster_ids() {
        let m = mash.monster(id);
        assert!(m.m_flags.wakens);
        assert!(m.spot.row > 8 && m.spot.row < 12 && m.spot.col > 30 && m.spot.col < 36);
        assert!(level.dungeon[m.spot.row as usize].cols[m.spot.col as usize].monster);
    }
}

#[test]
fn the_rest_of_a_turn_after_hunger() {
    assert_eq!(reg_move_verdict(HungerCheckResult::StillWalking), (true, false));
    assert_eq!(reg_move_verdict(HungerCheckResult::DidFaint), (true, true));
    assert_eq!(reg_move_verdict(HungerCheckResult::DidStarve), (false, true));
}

#[test]
fn rooms_entered_and_left_by_a_step() {
    let mut level = open_level();
    level.rooms[0].top_row = 2;
    level.rooms[0].bottom_row = 6;
    level.rooms[0].left_col = 2;
    level.rooms[0].right_col = 10;
    level.rooms[0].room_type = RoomType::Room;
    let to_door = MoveEffect::PrepToDoor { row: 4, col: 10, rogue_row: 4, rogue_col: 11 };
    assert_eq!(room_after_step(to_door, RoomMark::Passage, &level), RoomMark::Cavern(0));
    assert_eq!(room_after_step(to_door, RoomMark::Cavern(0), &level), RoomMark::Cavern(0));
    let off_door = MoveEffect::PrepDoorToTunnel { row: 4, col: 11, rogue_row: 4, rogue_col: 10 };
    assert_eq!(room_after_step(off_door, RoomMark::Cavern(0), &level), RoomMark::Passage);
}

#[test]
fn the_monster_mark_follows_a_step() {
    let mut level = open_level();
    let mut mash = MonsterMash::new();
    airdrop_monster_at(5, 5, monster(1, 5, 5), &mut level, &mut mash);
    let ctx = MonsterContext { rogue: DungeonSpot { row: 12, col: 12 }, scare_spots: Vec::new() };
    assert_eq!(mv_monster(1, 12, 12, false, 45, &ctx, &mut level, &mut mash), MonsterStep::Done);
    assert_eq!(mash.monster(1).spot, DungeonSpot { row: 6, col: 6 });
    assert!(level.dungeon[6].cols[6].monster);
    assert!(!level.dungeon[5].cols[5].monster);
}

#[test]
fn flying_monsters_take_a_flight_first() {
    let mut level = open_level();
    let mut mash = MonsterMash::new();
    let mut bat = monster(1, 5, 5);
    bat.m_flags.flies = true;
    airdrop_monster_at(5, 5, bat, &mut level, &mut mash);
    let far = MonsterContext { rogue: DungeonSpot { row: 12, col: 12 }, scare_spots: Vec::new() };
    assert!(flies_first(1, &far, &level, &mash));
    assert!(moves_after_flight(true, 1, &far, &level, &mash));
    let near = MonsterContext { rogue: DungeonSpot { row: 6, col: 6 }, scare_spots: Vec::new() };
    assert!(!flies_first(1, &near, &level, &mash));
    assert!(!moves_after_flight(true, 1, &near, &level, &mash));
    assert!(moves_after_flight(false, 1, &near, &level, &mash));
    assert!(hasted_goes_on(&mash));
}

#[test]
fn stairs_go_on_floor_away_from_the_rogue() {
    let mut level = Level::new();
    level.dungeon[3].cols[4] = floor();
    level.dungeon[7].cols[9] = floor();
    let spot = put_stairs(DungeonSpot { row: 3, col: 4 }, &mut level);
    assert_eq!(spot, Some(DungeonSpot { row: 7, col: 9 }));
    assert_eq!(level.dungeon[7].cols[9].material, CellMaterial::Floor(FloorFixture::Stairs));
    let mut empty = Level::new();
    assert_eq!(put_stairs(DungeonSpot { row: 3, col: 4 }, &mut empty), None);
}
