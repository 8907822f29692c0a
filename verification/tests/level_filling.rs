use rogue::level::cells::DungeonCell;
use rogue::level::dig::{make_level, mix_random_rooms};
use rogue::level::materials::{CellMaterial, FloorFixture};
use rogue::level::Level;
use rogue::monster::mash::MonsterMash;
use rogue::monster::roll::{gmc, put_mons, put_wanderer, random_wanderer, roll_monster, roll_wanderer_spot};
use rogue::object_what::ObjectWhat;
use rogue::objects::object_pack::ObjectPack;
use rogue::objects::placing::{
    gr_object, gr_what_is, has_amulet, next_party, party_due, place_at, plant_gold, put_amulet, put_gold,
    put_objects, put_player_legacy,
};
use rogue::objects::roll::alloc_object;
use rogue::room::RoomMark;
use rogue::spot::DungeonSpot;

fn floor() -> DungeonCell {
    DungeonCell { material: CellMaterial::Floor(FloorFixture::Nothing), object: ObjectWhat::Nothing, monster: false }
}

fn dug_level() -> (Level, ObjectPack) {
    let mut level = Level::new();
    let mut ground = ObjectPack::new();
    make_level(5, 0, true, DungeonSpot { row: 0, col: 0 }, &mut level, &mut ground);
    (level, ground)
}

#[test]
fn objects_are_placed_where_they_show() {
    let mut level = Level::new();
    level.dungeon[4].cols[6] = floor();
    let mut ground = ObjectPack::new();
    let mut obj = alloc_object();
    obj.what_is = ObjectWhat::Potion;
    place_at(obj, 4, 6, &mut level, &mut ground);
    assert_eq!(level.dungeon[4].cols[6].object, ObjectWhat::Potion);
    assert_eq!(ground.0[0].spot, DungeonSpot { row: 4, col: 6 });
    plant_gold(4, 7, true, 10, &mut level, &mut ground);
    let gold = ground.0[1];
    assert_eq!(gold.what_is, ObjectWhat::Gold);
    assert!(gold.quantity >= 30 && gold.quantity <= 240);
    assert_eq!(put_amulet(DungeonSpot { row: 0, col: 0 }, &mut level, &mut ground), Some(DungeonSpot { row: 4, col: 6 }));
    assert!(has_amulet(&ground.0));
}

#[test]
fn gold_and_objects_on_a_new_level() {
    let (mut level, mut ground) = dug_level();
    put_gold(5, &mut level, &mut ground);
    for obj in ground.0.iter() {
        assert_eq!(obj.what_is, ObjectWhat::Gold);
        assert_eq!(level.dungeon[obj.spot.row as usize].cols[obj.spot.col as usize].object, ObjectWhat::Gold);
    }
    let mut foods = 0;
    let before = ground.0.len();
    put_objects(5, 5, &mut foods, DungeonSpot { row: 0, col: 0 }, &mut level, &mut ground);
    assert!(ground.0.len() >= before + 2);
    assert!(foods <= 2);
    let mut deeper_ground = ObjectPack::new();
    let mut foods2 = 0;
    put_objects(3, 5, &mut foods2, DungeonSpot { row: 0, col: 0 }, &mut level, &mut deeper_ground);
    assert!(deeper_ground.0.is_empty());
}

#[test]
fn objects_rolled_for_a_depth() {
    let mut foods = 0;
    let first = gr_object(6, &mut foods);
    assert_eq!(first.what_is, ObjectWhat::Food);
    assert_eq!(foods, 1);
    for _ in 0..30 {
        let w = gr_what_is();
        assert!(w != ObjectWhat::Gold && w != ObjectWhat::Amulet && w != ObjectWhat::Nothing);
    }
    let mut full = 10;
    let o = gr_object(6, &mut full);
    assert_eq!(full, 10);
    assert!(o.what_is != ObjectWhat::Nothing);
}

#[test]
fn parties_come_once_in_ten_levels() {
    for _ in 0..20 {
        let n = next_party(13);
        assert!(n >= 21 && n <= 30);
        let m = next_party(20);
        assert!(m >= 21 && m <= 30);
    }
    assert!(party_due(7, 7));
    assert!(!party_due(7, 8));
}

#[test]
fn the_first_monsters_of_a_level() {
    let (mut level, _) = dug_level();
    let mut mash = MonsterMash::new();
    put_mons(5, DungeonSpot { row: 0, col: 0 }, &mut level, &mut mash);
    let ids = mash.monster_ids();
    assert!(ids.len() >= 4 && ids.len() <= 6);
    for id in ids {
        let m = mash.monster(id);
        assert!(level.dungeon[m.spot.row as usize].cols[m.spot.col as usize].monster);
        assert!(m.kind.first_level() <= 5 && 5 <= m.kind.last_level());
    }
    if let Some(w) = random_wanderer(5) {
        assert!(w.m_flags.wakens || w.m_flags.wanders);
    }
}

#[test]
fn the_character_of_a_monster() {
    let mut m = roll_monster(3, 0).unwrap();
    m.m_flags.invisible = false;
    m.m_flags.imitates = false;
    assert_eq!(gmc(&m, false, false, '.', '!'), m.kind.screen_char());
    assert_eq!(gmc(&m, false, true, '.', '!'), '.');
    m.m_flags.imitates = true;
    assert_eq!(gmc(&m, false, false, '.', '!'), '!');
    m.m_flags.invisible = true;
    assert_eq!(gmc(&m, false, false, '.', '!'), '.');
    assert_eq!(gmc(&m, true, false, '.', '!'), '!');
}

#[test]
fn mixing_the_slots_keeps_each() {
    let mut rooms = [0, 1, 2, 3, 4, 5, 6, 7, 8];
    mix_random_rooms(&mut rooms);
    let mut sorted = rooms;
    sorted.sort();
    assert_eq!(sorted, [0, 1, 2, 3, 4, 5, 6, 7, 8]);
}

#[test]
fn the_rogue_is_put_down_and_told_the_news() {
    let mut level = Level::new();
    level.dungeon[4].cols[6] = floor();
    level.new_level_message = Some("you feel a wrenching sensation in your gut".to_string());
    let mut messages: Vec<String> = Vec::new();
    let r = put_player_legacy(RoomMark::Nothing, DungeonSpot { row: 0, col: 0 }, &mut level, &mut messages);
    assert_eq!(r, Some((DungeonSpot { row: 4, col: 6 }, RoomMark::Nothing)));
    assert_eq!(messages, vec!["you feel a wrenching sensation in your gut".to_string()]);
    assert!(level.new_level_message.is_none());
}

#[test]
fn a_wanderer_comes_out_of_sight() {
    let mut level = Level::new();
    level.dungeon[4].cols[6] = floor();
    level.dungeon[4].cols[7] = floor();
    level.dungeon[20].cols[70] = floor();
    let rogue = DungeonSpot { row: 4, col: 6 };
    let spot = roll_wanderer_spot(rogue, false, &level);
    assert_eq!(spot, Some(DungeonSpot { row: 20, col: 70 }));
    let mut mash = MonsterMash::new();
    put_wanderer(5, rogue, false, &mut level, &mut mash);
    for id in mash.monster_ids() {
        assert_eq!(mash.monster(id).spot, DungeonSpot { row: 20, col: 70 });
        assert!(!mash.monster(id).m_flags.asleep || mash.monster(id).m_flags.napping);
    }
}
