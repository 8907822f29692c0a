use rogue::actions::stairs::{check_up, drop_check, Ascend, Descend, LevelChange, StairsContext, UpResult};
use rogue::level::Level;
use rogue::object_what::ObjectWhat;
use rogue::objects::note_tables::NoteTables;
use rogue::objects::pack::{name_of, object_id_with_letter, object_kind, pack_index};
use rogue::objects::{Object, ObjectId, RATION};
use rogue::spot::DungeonSpot;

fn ctx(wizard: bool, on_stairs: bool, levitating: bool, has_amulet: bool, cur_depth: usize) -> StairsContext {
    StairsContext { wizard, on_stairs, levitating, has_amulet, cur_depth }
}

fn object(id: u64, what_is: ObjectWhat, which_kind: u16, quantity: i16, ichar: char) -> Object {
    Object {
        id: ObjectId(id),
        what_is,
        which_kind,
        in_use_flags: 0,
        quantity,
        ichar,
        is_protected: 0,
        is_cursed: 0,
        class: 0,
        identified: false,
        spot: DungeonSpot { row: 0, col: 0 },
        hit_enchant: 0,
        d_enchant: 0,
        quiver: 0,
        picked_up: 0,
    }
}

#[test]
fn going_down() {
    assert_eq!(drop_check(&ctx(false, true, false, false, 3)), (true, None));
    assert_eq!(drop_check(&ctx(false, false, false, false, 3)), (false, Some("I see no way down")));
    assert_eq!(drop_check(&ctx(false, true, true, false, 3)), (false, Some("you're floating in the air!")));
    assert_eq!(drop_check(&ctx(true, false, true, false, 3)), (true, None));
    assert_eq!(Descend::update(&ctx(false, true, false, false, 3)).0, Some(LevelChange::StairsDown));
    assert_eq!(Descend::update(&ctx(false, false, false, false, 3)).0, None);
}

#[test]
fn going_up() {
    let mut level = Level::new();
    assert_eq!(check_up(&ctx(false, false, false, true, 3), &mut level), (UpResult::KeepLevel, Some("I see no way up")));
    assert_eq!(check_up(&ctx(false, true, false, false, 3), &mut level), (UpResult::KeepLevel, Some("Your way is magically blocked")));
    assert_eq!(level.new_level_message, None);
    assert_eq!(check_up(&ctx(false, true, false, true, 3), &mut level), (UpResult::UpLevel, None));
    assert_eq!(level.new_level_message, Some("you feel a wrenching sensation in your gut".to_string()));
    let mut level = Level::new();
    assert_eq!(Ascend::update(&ctx(true, false, false, false, 1), &mut level).0, Some(LevelChange::ExitWon));
    assert_eq!(Ascend::update(&ctx(false, false, false, false, 1), &mut level).0, None);
}

#[test]
fn pack_lookups() {
    let pack = vec![
        object(5, ObjectWhat::Food, RATION, 2, 'a'),
        object(6, ObjectWhat::Scroll, 3, 1, 'b'),
        object(7, ObjectWhat::Potion, 4, 1, 'b'),
    ];
    assert_eq!(object_id_with_letter(&pack, 'b'), Some(ObjectId(6)));
    assert_eq!(object_id_with_letter(&pack, 'q'), None);
    assert_eq!(pack_index(&pack, ObjectId(7)), Some(2));
    assert_eq!(pack_index(&pack, ObjectId(8)), None);
    assert_eq!(object_kind(&pack, ObjectId(6)), 3);
    assert_eq!(object_kind(&pack, ObjectId(9)), 0);
}

#[test]
fn names_of_objects() {
    let notes = NoteTables::new();
    let fruit = "slime-mold".to_string();
    assert_eq!(name_of(&object(1, ObjectWhat::Armor, 0, 1, 'a'), fruit.clone(), &notes), "armor ");
    assert_eq!(name_of(&object(1, ObjectWhat::Weapon, 1, 3, 'a'), fruit.clone(), &notes), "darts ");
    assert_eq!(name_of(&object(1, ObjectWhat::Weapon, 2, 1, 'a'), fruit.clone(), &notes), "arrow ");
    assert_eq!(name_of(&object(1, ObjectWhat::Scroll, 0, 2, 'a'), fruit.clone(), &notes), "scrolls ");
    assert_eq!(name_of(&object(1, ObjectWhat::Potion, 0, 1, 'a'), fruit.clone(), &notes), "potion ");
    assert_eq!(name_of(&object(1, ObjectWhat::Food, RATION, 1, 'a'), fruit.clone(), &notes), "food ");
    assert_eq!(name_of(&object(1, ObjectWhat::Food, 1, 1, 'a'), fruit.clone(), &notes), "slime-mold");
    assert_eq!(name_of(&object(1, ObjectWhat::Ring, 0, 1, 'a'), fruit.clone(), &notes), "ring ");
    assert_eq!(name_of(&object(1, ObjectWhat::Amulet, 0, 1, 'a'), fruit.clone(), &notes), "amulet ");
    assert_eq!(name_of(&object(1, ObjectWhat::Gold, 0, 1, 'a'), fruit.clone(), &notes), "unknown ");
    let wand = name_of(&object(1, ObjectWhat::Wand, 0, 1, 'a'), fruit.clone(), &notes);
    assert!(wand == "wand " || wand == "staff ");
}
