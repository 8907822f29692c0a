use rogue::armors::ArmorKind;
use rogue::components::hunger::HungerLevel;
use rogue::level::cells::DungeonCell;
use rogue::level::dungeon::DungeonRow;
use rogue::level::materials::{CellMaterial, FloorFixture, TunnelFixture, Visibility};
use rogue::level::spot::SpotFlag;
use rogue::level::{get_exp_level, level_points, Level, RogueExp};
use rogue::monster::flags::MonsterFlags;
use rogue::monster::kind::MonsterKind;
use rogue::motion::{get_hunger_transition_with_burn_count, is_direction, is_passable, MoveDirection};
use rogue::object_what::ObjectWhat;
use rogue::room::{DoorDirection, RoomType};
use rogue::trap::is_off_screen;

#[test]
fn spot_flags_set_and_clear() {
    let mut word: u16 = 0;
    SpotFlag::Door.set(&mut word);
    assert!(SpotFlag::Door.is_set(word));
    assert!(SpotFlag::Door.is_only(word));
    assert!(!SpotFlag::Nothing.is_set(word));
    SpotFlag::Hidden.set(&mut word);
    assert_eq!(word, 0o1040);
    SpotFlag::Door.clear(&mut word);
    assert!(!SpotFlag::Door.is_set(word));
    assert!(SpotFlag::are_others_set(&vec![SpotFlag::Door], word));
    assert!(!SpotFlag::are_others_set(&vec![SpotFlag::Hidden], word));
    assert!(SpotFlag::is_any_set(&vec![SpotFlag::Floor, SpotFlag::Hidden], word));
    SpotFlag::set_nothing(&mut word);
    assert!(SpotFlag::is_nothing(word));
    assert!(SpotFlag::Nothing.is_set(word));
}

#[test]
fn spot_flag_union_is_always_empty() {
    assert_eq!(SpotFlag::union(&vec![SpotFlag::Door, SpotFlag::Floor]), 0);
    assert_eq!(SpotFlag::union(&vec![]), 0);
}

#[test]
fn materials_show_their_characters() {
    assert_eq!(CellMaterial::Nothing.to_char(), ' ');
    assert_eq!(CellMaterial::HorizontalWall.to_char(), '-');
    assert_eq!(CellMaterial::VerticalWall.to_char(), '|');
    assert_eq!(CellMaterial::Door(DoorDirection::Up, Visibility::Visible).to_char(), '+');
    assert_eq!(CellMaterial::Door(DoorDirection::Up, Visibility::Hidden).to_char(), '-');
    assert_eq!(CellMaterial::Door(DoorDirection::Left, Visibility::Hidden).to_char(), '|');
    assert_eq!(CellMaterial::Tunnel(Visibility::Visible, TunnelFixture::Nothing).to_char(), '#');
    assert_eq!(CellMaterial::Tunnel(Visibility::Hidden, TunnelFixture::Nothing).to_char(), ' ');
    assert_eq!(CellMaterial::Tunnel(Visibility::Visible, TunnelFixture::Stairs).to_char(), '%');
    assert_eq!(CellMaterial::Floor(FloorFixture::Nothing).to_char(), '.');
    assert_eq!(CellMaterial::Floor(FloorFixture::Stairs).to_char(), '%');
    assert_eq!(CellMaterial::Floor(FloorFixture::Trap(Visibility::Visible)).to_char(), '^');
}

#[test]
fn hiding_and_finding_keep_the_kind() {
    let door = CellMaterial::Door(DoorDirection::Right, Visibility::Visible);
    assert!(door.to_hidden().is_any_door());
    assert_eq!(door.to_hidden().to_visible(), door);
    let tunnel = CellMaterial::Tunnel(Visibility::Visible, TunnelFixture::Nothing);
    assert!(tunnel.to_hidden().is_any_tunnel());
    assert_eq!(tunnel.to_hidden().to_visible(), tunnel);
    let floor = CellMaterial::Floor(FloorFixture::Nothing);
    assert_eq!(floor.with_hidden_trap().to_visible(), CellMaterial::Floor(FloorFixture::Trap(Visibility::Visible)));
    assert!(floor.with_stairs().is_stairs());
    assert_eq!(CellMaterial::HorizontalWall.to_hidden(), CellMaterial::HorizontalWall);
}

#[test]
fn cells_change_material_and_contents() {
    let mut cell = DungeonCell::nothing();
    assert!(cell.is_nothing());
    cell.set_object(ObjectWhat::Gold);
    assert!(cell.has_object());
    cell.set_monster(true);
    cell.set_material_remove_others(CellMaterial::Floor(FloorFixture::Nothing));
    assert!(cell.is_material_no_others(CellMaterial::Floor(FloorFixture::Nothing)));
    assert!(!cell.has_monster());
    cell.add_hidden_trap();
    assert!(cell.is_any_hidden());
    cell.set_visible();
    assert!(!cell.is_any_hidden());
    assert!(cell.is_any_trap());
    cell.reset_to_nothing();
    assert!(cell.is_nothing());
}

#[test]
fn dungeon_rows_hold_cells() {
    let mut row = DungeonRow::new();
    assert!(row.get(5).is_nothing());
    let mut cell = DungeonCell::nothing();
    cell.set_monster(true);
    row.set(5, cell);
    assert!(row.get(5).has_monster());
    assert!(!row.get(6).has_monster());
}

#[test]
fn level_clear_empties_everything() {
    let mut level = Level::new();
    level.rooms[3].room_type = RoomType::Maze;
    level.dungeon[4].cols[4].set_monster(true);
    level.see_invisible = true;
    level.clear();
    assert_eq!(level.rooms[3].room_type, RoomType::Nothing);
    assert!(level.dungeon[4].cols[4].is_nothing());
    assert!(!level.see_invisible);
}

#[test]
fn passable_cells() {
    let mut level = Level::new();
    level.dungeon[5].cols[5].material = CellMaterial::Floor(FloorFixture::Nothing);
    level.dungeon[5].cols[6].material = CellMaterial::Tunnel(Visibility::Hidden, TunnelFixture::Nothing);
    assert!(is_passable(5, 5, &level));
    assert!(!is_passable(5, 6, &level));
    assert!(!is_passable(5, 7, &level));
    assert!(!is_passable(0, 5, &level));
    assert!(is_off_screen(23, 5));
    assert!(!is_off_screen(22, 79));
}

#[test]
fn direction_keys() {
    assert_eq!(MoveDirection::from_char('h'), MoveDirection::Left);
    assert_eq!(MoveDirection::from_char('L'), MoveDirection::Right);
    assert_eq!(MoveDirection::from_char('\u{0b}'), MoveDirection::Up);
    assert_eq!(MoveDirection::from_char('n'), MoveDirection::DownRight);
    assert_eq!(MoveDirection::Up.apply(5, 5), (4, 5));
    assert_eq!(MoveDirection::UpLeft.apply_confined(1, 0), (1, 0));
    assert!(is_direction('y'));
    assert!(is_direction('\u{1b}'));
    assert!(!is_direction('x'));
}

#[test]
fn hunger_thresholds() {
    assert_eq!(get_hunger_transition_with_burn_count(300, 1), Some(HungerLevel::Hungry));
    assert_eq!(get_hunger_transition_with_burn_count(299, 2), Some(HungerLevel::Hungry));
    assert_eq!(get_hunger_transition_with_burn_count(299, 1), None);
    assert_eq!(get_hunger_transition_with_burn_count(300, 0), None);
    assert_eq!(get_hunger_transition_with_burn_count(150, 1), Some(HungerLevel::Weak));
    assert_eq!(get_hunger_transition_with_burn_count(20, 1), Some(HungerLevel::Faint));
    assert_eq!(get_hunger_transition_with_burn_count(-3, 1), Some(HungerLevel::Starved));
    assert_eq!(HungerLevel::Weak.as_str(), "weak");
    assert_eq!(HungerLevel::default(), HungerLevel::Normal);
}

#[test]
fn experience_levels() {
    assert_eq!(get_exp_level(0), 1);
    assert_eq!(get_exp_level(9), 1);
    assert_eq!(get_exp_level(10), 2);
    assert_eq!(get_exp_level(5199), 10);
    assert_eq!(get_exp_level(10000000), 21);
    assert_eq!(level_points(1), 10);
    assert_eq!(level_points(21), 99900000);
    let mut exp = RogueExp::new();
    let old = exp.add_points_take_old(25);
    assert_eq!(old, RogueExp { points: 0, level: 1 });
    assert_eq!(exp, RogueExp { points: 25, level: 3 });
    exp.add_points_take_old(5);
    assert_eq!(exp, RogueExp { points: 30, level: 3 });
    exp.add_points_take_old(20000000);
    assert_eq!(exp, RogueExp { points: 10000001, level: 21 });
    let mut raised = RogueExp { points: 0, level: 4 };
    raised.raise_level();
    assert_eq!(raised.points, 80);
}

#[test]
fn armor_names_and_indices() {
    for i in 0..7 {
        assert_eq!(ArmorKind::from_index(i).to_index(), i);
    }
    assert_eq!(ArmorKind::from_index(0).name(), "leather armor ");
    assert_eq!(ArmorKind::from_index(6).name(), "plate mail ");
    assert!(ArmorKind::from_index(3).is_kind(3));
}

#[test]
fn monster_tables() {
    for i in 0..26 {
        let k = MonsterKind::from_index(i);
        assert_eq!(k.index(), i);
        assert!(k.first_level() <= k.last_level() || k == MonsterKind::Medusa || k == MonsterKind::Vampire);
    }
    assert_eq!(MonsterKind::Bat.name(), "bat");
    assert_eq!(MonsterKind::Bat.screen_char(), 'B');
    assert_eq!(MonsterKind::Dragon.kill_exp(), 5000);
    assert_eq!(MonsterKind::Emu.damage().len(), 1);
}

#[test]
fn monster_flags_wake_and_special_hits() {
    let mut flags = MonsterFlags::empty();
    flags.asleep = true;
    flags.wakens = true;
    flags.wake_up();
    assert!(!flags.asleep && !flags.wakens);
    let mut napper = MonsterFlags::empty();
    napper.asleep = true;
    napper.napping = true;
    napper.wake_up();
    assert!(napper.asleep);
    let mut f = MonsterFlags::empty();
    assert!(!f.special_hit());
    f.set_special_hit(true);
    assert!(f.special_hit());
}
