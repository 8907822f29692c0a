use rogue::level::cells::DungeonCell;
use rogue::level::materials::{CellMaterial, FloorFixture, TunnelFixture, Visibility};
use rogue::level::Level;
use rogue::monster::flags::MonsterFlags;
use rogue::monster::kind::MonsterKind;
use rogue::monster::mash::{Monster, MonsterMash, StuckCounter};
use rogue::monster::moves::{
    a_moves_b_away_from_c, airdrop_monster_at, get_rand_indices, mon_can_go_and_reach, mon_sees, move_confused,
    move_mon_to, mtry, mv_monster, mv_monster_resume, next_closest, no_spot_for_monster, random_walk, rogue_is_near,
    MonsterContext, MonsterStep,
};
use rogue::object_what::ObjectWhat;
use rogue::room::{RoomType};
use rogue::spot::DungeonSpot;

fn floor() -> DungeonCell {
    DungeonCell { material: CellMaterial::Floor(FloorFixture::Nothing), object: ObjectWhat::Nothing, monster: false }
}

fn open_level() -> Level {
    let mut level = Level::new();
    for row in 1..23 {
        for col in 1..79 {
            level.dungeon[row].cols[col] = floor();
        }
    }
    level
}

fn monster(id: u64, row: i64, col: i64) -> Monster {
    Monster {
        id,
        kind: MonsterKind::Orc,
        m_flags: MonsterFlags::empty(),
        spot: DungeonSpot { row, col },
        slowed_toggle: false,
        target_spot: None,
        nap_length: 0,
        stuck_counter: StuckCounter { row: 0, col: 0, count: 0 },
        moves_confused: 0,
        stationary_damage: 0,
        hp_to_kill: 10,
        killed: false,
        drop_percent: 0,
    }
}

fn ctx_at(row: i64, col: i64) -> MonsterContext {
    MonsterContext { rogue: DungeonSpot { row, col }, scare_spots: Vec::new() }
}

#[test]
fn moving_away_from_the_rogue() {
    assert!(a_moves_b_away_from_c((4, 5), (5, 5), (9, 5)));
    assert!(!a_moves_b_away_from_c((6, 5), (5, 5), (9, 5)));
    assert!(a_moves_b_away_from_c((5, 6), (5, 5), (5, 1)));
    assert!(!a_moves_b_away_from_c((5, 5), (5, 5), (5, 5)));
}

#[test]
fn monster_steps_one_spot_toward_the_rogue() {
    let mut level = open_level();
    let mut mash = MonsterMash::new();
    airdrop_monster_at(5, 5, monster(1, 5, 5), &mut level, &mut mash);
    let ctx = ctx_at(10, 10);
    assert!(mon_can_go_and_reach(1, 6, 6, false, &ctx, &level, &mash));
    assert!(!mon_can_go_and_reach(1, 7, 7, false, &ctx, &level, &mash));
    assert!(!mon_can_go_and_reach(1, 4, 4, false, &ctx, &level, &mash));
    assert!(mon_can_go_and_reach(1, 4, 4, true, &ctx, &level, &mash));
    level.dungeon[6].cols[6].monster = true;
    assert!(!mon_can_go_and_reach(1, 6, 6, false, &ctx, &level, &mash));
}

#[test]
fn scare_monster_stops_a_monster() {
    let level = open_level();
    let mut mash = MonsterMash::new();
    mash.add_monster(monster(1, 5, 5));
    let ctx = MonsterContext { rogue: DungeonSpot { row: 10, col: 10 }, scare_spots: vec![DungeonSpot { row: 6, col: 6 }] };
    assert!(!mon_can_go_and_reach(1, 6, 6, false, &ctx, &level, &mash));
    assert!(mon_can_go_and_reach(1, 6, 5, false, &ctx, &level, &mash));
}

#[test]
fn no_diagonal_step_through_a_doorway() {
    let mut level = open_level();
    let mut mash = MonsterMash::new();
    mash.add_monster(monster(1, 5, 5));
    level.dungeon[6].cols[6].material = CellMaterial::Door(rogue::room::DoorDirection::Up, Visibility::Visible);
    let ctx = ctx_at(10, 10);
    assert!(!mon_can_go_and_reach(1, 6, 6, false, &ctx, &level, &mash));
}

#[test]
fn move_mon_to_moves_the_marks() {
    let mut level = open_level();
    let mut mash = MonsterMash::new();
    airdrop_monster_at(5, 5, monster(1, 5, 5), &mut level, &mut mash);
    move_mon_to(1, 6, 5, &mut level, &mut mash);
    assert!(!level.dungeon[5].cols[5].monster);
    assert!(level.dungeon[6].cols[5].monster);
    assert_eq!(mash.monster(1).spot, DungeonSpot { row: 6, col: 5 });
}

#[test]
fn mtry_moves_only_where_it_can() {
    let mut level = open_level();
    let mut mash = MonsterMash::new();
    airdrop_monster_at(5, 5, monster(1, 5, 5), &mut level, &mut mash);
    let ctx = ctx_at(10, 10);
    assert!(!mtry(1, 4, 4, false, &ctx, &mut level, &mut mash));
    assert_eq!(mash.monster(1).spot, DungeonSpot { row: 5, col: 5 });
    assert!(mtry(1, 6, 6, false, &ctx, &mut level, &mut mash));
    assert_eq!(mash.monster(1).spot, DungeonSpot { row: 6, col: 6 });
}

#[test]
fn a_sleeping_monster_naps() {
    let mut level = open_level();
    let mut mash = MonsterMash::new();
    let mut m = monster(1, 5, 5);
    m.m_flags.asleep = true;
    m.m_flags.napping = true;
    m.nap_length = 1;
    airdrop_monster_at(5, 5, m, &mut level, &mut mash);
    let ctx = ctx_at(10, 10);
    assert_eq!(mv_monster(1, 10, 10, false, 45, &ctx, &mut level, &mut mash), MonsterStep::Done);
    assert!(!mash.monster(1).m_flags.asleep);
    assert_eq!(mash.monster(1).spot, DungeonSpot { row: 5, col: 5 });
}

#[test]
fn a_monster_that_has_moved_waits() {
    let mut level = open_level();
    let mut mash = MonsterMash::new();
    let mut m = monster(1, 5, 5);
    m.m_flags.already_moved = true;
    airdrop_monster_at(5, 5, m, &mut level, &mut mash);
    let ctx = ctx_at(10, 10);
    assert_eq!(mv_monster(1, 10, 10, false, 45, &ctx, &mut level, &mut mash), MonsterStep::Done);
    assert!(!mash.monster(1).m_flags.already_moved);
    assert_eq!(mash.monster(1).spot, DungeonSpot { row: 5, col: 5 });
}

#[test]
fn a_monster_next_to_the_rogue_hits() {
    let mut level = open_level();
    let mut mash = MonsterMash::new();
    airdrop_monster_at(5, 5, monster(1, 5, 5), &mut level, &mut mash);
    let ctx = ctx_at(6, 6);
    assert_eq!(mv_monster(1, 6, 6, false, 45, &ctx, &mut level, &mut mash), MonsterStep::Hit);
}

#[test]
fn a_confusing_monster_hands_over() {
    let mut level = open_level();
    let mut mash = MonsterMash::new();
    let mut m = monster(1, 5, 5);
    m.m_flags.confuses = true;
    airdrop_monster_at(5, 5, m, &mut level, &mut mash);
    let ctx = ctx_at(6, 6);
    assert_eq!(mv_monster(1, 6, 6, false, 45, &ctx, &mut level, &mut mash), MonsterStep::Confuse);
    assert_eq!(mv_monster_resume(MonsterStep::Confuse, 1, 6, 6, false, &ctx, &mut level, &mut mash), MonsterStep::Hit);
}

#[test]
fn a_monster_heads_for_the_rogue() {
    let mut level = open_level();
    let mut mash = MonsterMash::new();
    airdrop_monster_at(5, 5, monster(1, 5, 5), &mut level, &mut mash);
    let ctx = ctx_at(12, 12);
    assert_eq!(mv_monster(1, 12, 12, false, 45, &ctx, &mut level, &mut mash), MonsterStep::Done);
    assert_eq!(mash.monster(1).spot, DungeonSpot { row: 6, col: 6 });
}

#[test]
fn flames_and_gold_come_in_order() {
    let mut level = open_level();
    let mut mash = MonsterMash::new();
    let mut m = monster(1, 5, 5);
    m.m_flags.flames = true;
    m.m_flags.seeks_gold = true;
    airdrop_monster_at(5, 5, m, &mut level, &mut mash);
    let ctx = ctx_at(15, 15);
    assert_eq!(mv_monster(1, 15, 15, false, 45, &ctx, &mut level, &mut mash), MonsterStep::Flames);
    assert_eq!(mv_monster_resume(MonsterStep::Flames, 1, 15, 15, false, &ctx, &mut level, &mut mash), MonsterStep::SeekGold);
    assert_eq!(mv_monster_resume(MonsterStep::SeekGold, 1, 15, 15, false, &ctx, &mut level, &mut mash), MonsterStep::Done);
    assert_eq!(mash.monster(1).spot, DungeonSpot { row: 6, col: 6 });
}

#[test]
fn confused_sleeper_does_not_move() {
    let mut level = open_level();
    let mut mash = MonsterMash::new();
    let mut m = monster(1, 5, 5);
    m.m_flags.asleep = true;
    m.moves_confused = 3;
    airdrop_monster_at(5, 5, m, &mut level, &mut mash);
    let ctx = ctx_at(15, 15);
    assert!(!move_confused(1, false, &ctx, &mut level, &mut mash));
    assert_eq!(mash.monster(1).moves_confused, 3);
}

#[test]
fn confusion_wears_off() {
    let mut level = open_level();
    let mut mash = MonsterMash::new();
    let mut m = monster(1, 5, 5);
    m.moves_confused = 3;
    airdrop_monster_at(5, 5, m, &mut level, &mut mash);
    let ctx = ctx_at(15, 15);
    move_confused(1, false, &ctx, &mut level, &mut mash);
    assert_eq!(mash.monster(1).moves_confused, 2);
}

#[test]
fn no_spot_in_a_full_room() {
    let mut level = open_level();
    level.rooms[0].top_row = 1;
    level.rooms[0].bottom_row = 4;
    level.rooms[0].left_col = 1;
    level.rooms[0].right_col = 4;
    level.rooms[0].room_type = RoomType::Room;
    assert!(!no_spot_for_monster(0, &level));
    for row in 2..4 {
        for col in 2..4 {
            level.dungeon[row].cols[col].monster = true;
        }
    }
    assert!(no_spot_for_monster(0, &level));
}

#[test]
fn airdrop_aims_for_a_door() {
    let mut level = open_level();
    level.rooms[0].top_row = 1;
    level.rooms[0].bottom_row = 6;
    level.rooms[0].left_col = 1;
    level.rooms[0].right_col = 10;
    level.rooms[0].room_type = RoomType::Room;
    level.rooms[0].doors[1].oth_room = Some(1);
    level.rooms[0].doors[1].door_row = 3;
    level.rooms[0].doors[1].door_col = 10;
    let mut mash = MonsterMash::new();
    airdrop_monster_at(3, 3, monster(4, 3, 3), &mut level, &mut mash);
    assert_eq!(mash.monster(4).target_spot, Some(DungeonSpot { row: 3, col: 10 }));
    assert!(level.dungeon[3].cols[3].monster);
}

#[test]
fn small_helpers() {
    assert_eq!(next_closest(5, 9), 6);
    assert_eq!(next_closest(5, 1), 4);
    assert_eq!(next_closest(5, 5), 5);
    assert!(rogue_is_near(DungeonSpot { row: 5, col: 5 }, DungeonSpot { row: 6, col: 4 }));
    assert!(!rogue_is_near(DungeonSpot { row: 5, col: 5 }, DungeonSpot { row: 7, col: 5 }));
    let mut idx = get_rand_indices(6);
    idx.sort();
    assert_eq!(idx, vec![0, 1, 2, 3, 4, 5]);
    let walk = random_walk(5, 5);
    let mut spots: Vec<(i64, i64)> = walk.iter().map(|s| (s.row, s.col)).collect();
    spots.sort();
    assert_eq!(spots.len(), 9);
    assert_eq!(spots[0], (4, 4));
    assert_eq!(spots[8], (6, 6));
    let level = open_level();
    assert!(mon_sees(DungeonSpot { row: 5, col: 5 }, 6, 6, &level));
    assert!(!mon_sees(DungeonSpot { row: 5, col: 5 }, 9, 9, &level));
    let _ = TunnelFixture::Nothing;
}

#[test]
fn scare_monster_scrolls_mark_their_spots() {
    let scroll = |id: u64, kind: u16, row: i64, col: i64| rogue::objects::Object {
        id: rogue::objects::ObjectId(id),
        what_is: ObjectWhat::Scroll,
        which_kind: kind,
        in_use_flags: 0,
        quantity: 1,
        ichar: 'a',
        is_protected: 0,
        is_cursed: 0,
        class: 0,
        identified: false,
        spot: DungeonSpot { row, col },
        hit_enchant: 0,
        d_enchant: 0,
        quiver: 0,
        picked_up: 0,
    };
    let ground = rogue::objects::object_pack::ObjectPack(vec![
        scroll(1, 7, 3, 4),
        scroll(2, 0, 5, 6),
        scroll(3, 7, 5, 6),
        scroll(4, 7, 8, 8),
    ]);
    let spots = rogue::monster::moves::scare_spots(&ground);
    assert_eq!(spots, vec![DungeonSpot { row: 3, col: 4 }, DungeonSpot { row: 8, col: 8 }]);
}
