use rogue::actions::quaff::{QuaffPotionEvent, QuaffState, QuaffStep};
use rogue::objects::potions::PotionKind;
use rogue::actions::eat::MenuInput;
use rogue::actions::read_scroll::{
    identify_pick, uncurse_all, IdentifyStep, ReadScrollEvent, ReadStep, ReaderState, ScrollWork,
};
use rogue::inventory::{
    get_armor_class, get_id_real, get_in_use_description, get_obj_desc, get_pack_obj_desc, get_quantity, is_vowel,
};
use rogue::level::cells::DungeonCell;
use rogue::level::materials::{CellMaterial, FloorFixture};
use rogue::level::Level;
use rogue::monster::flags::MonsterFlags;
use rogue::monster::kind::MonsterKind;
use rogue::monster::mash::{Monster, MonsterMash, StuckCounter};
use rogue::monster::moves::airdrop_monster_at;
use rogue::object_what::ObjectWhat;
use rogue::objects::note_tables::NoteTables;
use rogue::objects::object_pack::ObjectPack;
use rogue::objects::scrolls::ScrollKind;
use rogue::objects::{NoteStatus, Object, ObjectId, BEING_WIELDED, BEING_WORN, FRUIT, RATION};
use rogue::spot::DungeonSpot;

fn thing(id: u64, what_is: ObjectWhat, which_kind: u16, quantity: i16, ichar: char) -> Object {
    Object {
        id: ObjectId(id),
        what_is,
        which_kind,
        in_use_flags: 0,
        quantity,
        ichar,
        is_protected: 0,
        is_cursed: 0,
        class: 0,
        identified: false,
        spot: DungeonSpot { row: 0, col: 0 },
        hit_enchant: 0,
        d_enchant: 0,
        quiver: 0,
        picked_up: 0,
    }
}

fn reader(pack: Vec<Object>) -> ReaderState {
    ReaderState {
        pack: ObjectPack(pack),
        notes: NoteTables::new(),
        weapon_id: None,
        armor_id: None,
        blind: false,
        halluc: false,
        rogue: DungeonSpot { row: 10, col: 10 },
        level: Level::new(),
        mash: MonsterMash::new(),
        messages: Vec::new(),
        stats_changed: false,
    }
}

#[test]
fn quantities_and_uses_are_worded() {
    assert_eq!(get_quantity(&thing(1, ObjectWhat::Armor, 0, 1, 'a')), "");
    assert_eq!(get_quantity(&thing(1, ObjectWhat::Scroll, 0, 1, 'a')), "a ");
    assert_eq!(get_quantity(&thing(1, ObjectWhat::Scroll, 0, 3, 'a')), "3 ");
    let mut w = thing(1, ObjectWhat::Weapon, 5, 1, 'a');
    assert_eq!(get_in_use_description(&w), "");
    w.in_use_flags = BEING_WIELDED;
    assert_eq!(get_in_use_description(&w), "in hand");
    w.in_use_flags = BEING_WORN;
    assert_eq!(get_in_use_description(&w), "being worn");
    assert!(is_vowel('e'));
    assert!(!is_vowel('b'));
}

#[test]
fn real_names_follow_the_kind_lists() {
    assert_eq!(get_id_real(&thing(1, ObjectWhat::Scroll, 7, 1, 'a')), "of scare monster ");
    assert_eq!(get_id_real(&thing(1, ObjectWhat::Scroll, 0, 1, 'a')), "of protect armor ");
    assert_eq!(get_id_real(&thing(1, ObjectWhat::Potion, 2, 1, 'a')), "of healing ");
    assert_eq!(get_id_real(&thing(1, ObjectWhat::Wand, 7, 1, 'a')), "of magic missile ");
    assert_eq!(get_id_real(&thing(1, ObjectWhat::Ring, 6, 1, 'a')), "of dexterity ");
    assert_eq!(get_id_real(&thing(1, ObjectWhat::Food, 0, 1, 'a')), "");
}

#[test]
fn objects_are_described() {
    let notes = NoteTables::new();
    let fruit = "apple".to_string();
    assert_eq!(get_obj_desc(&thing(1, ObjectWhat::Amulet, 0, 1, 'a'), fruit.clone(), &notes, false), "the amulet of Yendor ");
    assert_eq!(get_obj_desc(&thing(1, ObjectWhat::Gold, 0, 25, 'a'), fruit.clone(), &notes, false), "25 pieces of gold");
    assert_eq!(get_obj_desc(&thing(1, ObjectWhat::Food, RATION, 2, 'a'), fruit.clone(), &notes, false), "2 rations of food ");
    assert_eq!(get_obj_desc(&thing(1, ObjectWhat::Food, RATION, 1, 'a'), fruit.clone(), &notes, false), "some food ");
    assert_eq!(get_obj_desc(&thing(1, ObjectWhat::Food, FRUIT, 1, 'a'), fruit.clone(), &notes, false), "an apple");
    assert_eq!(get_obj_desc(&thing(1, ObjectWhat::Scroll, 4, 1, 'a'), fruit.clone(), &notes, true), "a scroll of identify ");
    assert_eq!(get_obj_desc(&thing(1, ObjectWhat::Scroll, 4, 2, 'a'), fruit.clone(), &notes, false), "2 scrolls entitled: ");
    let mut mace = thing(1, ObjectWhat::Weapon, 5, 1, 'a');
    assert_eq!(get_obj_desc(&mace, fruit.clone(), &notes, false), "mace ");
    mace.identified = true;
    mace.hit_enchant = 1;
    mace.d_enchant = -1;
    mace.in_use_flags = BEING_WIELDED;
    assert_eq!(get_obj_desc(&mace, fruit.clone(), &notes, false), "a +1,-1 mace in hand");
    let mut armor = thing(2, ObjectWhat::Armor, 0, 1, 'b');
    armor.class = 3;
    armor.d_enchant = 2;
    assert_eq!(get_armor_class(&armor), 5);
    assert_eq!(get_obj_desc(&armor, fruit.clone(), &notes, false), "leather armor ");
    armor.identified = true;
    armor.in_use_flags = BEING_WORN;
    assert_eq!(get_obj_desc(&armor, fruit.clone(), &notes, false), "+2 leather armor [5] being worn");
    assert_eq!(get_pack_obj_desc(&armor, fruit, &notes, false), "+2 leather armor [5] being worn(b)");
}

#[test]
fn a_blind_rogue_cannot_read() {
    let mut state = reader(vec![thing(1, ObjectWhat::Scroll, 7, 1, 'a')]);
    state.blind = true;
    assert_eq!(ReadScrollEvent::new().dispatch(&mut state, "apple", "blue"), ReadStep::AwaitMove);
    assert_eq!(state.messages, vec!["You can't see to read the scroll.".to_string()]);
    let mut state = reader(vec![thing(1, ObjectWhat::Scroll, 7, 1, 'a')]);
    assert_eq!(ReadScrollEvent::S1Start.dispatch(&mut state, "apple", "blue"), ReadStep::AwaitMenu);
}

#[test]
fn reading_asks_for_a_scroll() {
    let mut state = reader(vec![thing(1, ObjectWhat::Scroll, 7, 1, 'a'), thing(2, ObjectWhat::Food, RATION, 1, 'b')]);
    assert_eq!(ReadScrollEvent::S2Select(MenuInput::Close).dispatch(&mut state, "apple", "blue"), ReadStep::AwaitMove);
    assert_eq!(
        ReadScrollEvent::S2Select(MenuInput::Item('z')).dispatch(&mut state, "apple", "blue"),
        ReadStep::AwaitMove
    );
    assert_eq!(state.messages, vec!["no such item.".to_string()]);
    assert_eq!(
        ReadScrollEvent::S2Select(MenuInput::Item('b')).dispatch(&mut state, "apple", "blue"),
        ReadStep::Next(ReadScrollEvent::S3Read(ObjectId(2)))
    );
    assert_eq!(ReadScrollEvent::S3Read(ObjectId(2)).dispatch(&mut state, "apple", "blue"), ReadStep::AwaitMove);
    assert_eq!(state.messages.last().unwrap(), "you can't read that");
}

#[test]
fn scare_monster_laughs_and_is_used_up() {
    let mut state = reader(vec![thing(1, ObjectWhat::Scroll, 7, 2, 'a')]);
    let step = ReadScrollEvent::S3Read(ObjectId(1)).dispatch(&mut state, "apple", "blue");
    assert_eq!(step, ReadStep::Next(ReadScrollEvent::S4Finish(ObjectId(1), ScrollKind::ScareMonster)));
    assert_eq!(state.messages, vec!["you hear a maniacal laughter in the distance".to_string()]);
    let step = ReadScrollEvent::S4Finish(ObjectId(1), ScrollKind::ScareMonster).dispatch(&mut state, "apple", "blue");
    assert_eq!(step, ReadStep::RegMove);
    assert_eq!(state.pack.0[0].quantity, 1);
    assert_eq!(state.notes.scrolls[7].status, NoteStatus::Identified);
}

#[test]
fn a_scroll_of_sleep_vanishes_without_a_move() {
    let mut state = reader(vec![thing(1, ObjectWhat::Scroll, 6, 1, 'a')]);
    let step = ReadScrollEvent::S3Read(ObjectId(1)).dispatch(&mut state, "apple", "blue");
    assert_eq!(step, ReadStep::Outside(ScrollWork::Sleep, ObjectId(1), ScrollKind::Sleep));
    assert_eq!(state.messages, vec!["you fall asleep".to_string()]);
    let step = ReadScrollEvent::S4Finish(ObjectId(1), ScrollKind::Sleep).dispatch(&mut state, "apple", "blue");
    assert_eq!(step, ReadStep::AwaitMove);
    assert!(state.pack.0.is_empty());
}

#[test]
fn enchantments_glow() {
    let mut mace = thing(2, ObjectWhat::Weapon, 5, 1, 'b');
    mace.is_cursed = 1;
    let mut armor = thing(3, ObjectWhat::Armor, 0, 1, 'c');
    armor.d_enchant = 99;
    armor.is_cursed = 1;
    let mut state = reader(vec![thing(1, ObjectWhat::Scroll, 2, 2, 'a'), mace, armor]);
    state.weapon_id = Some(ObjectId(2));
    state.armor_id = Some(ObjectId(3));
    ReadScrollEvent::S3Read(ObjectId(1)).dispatch(&mut state, "apple", "blue");
    assert_eq!(state.messages, vec!["your mace glows blue for a moment".to_string()]);
    let w = state.pack.0[1];
    assert_eq!(w.hit_enchant + w.d_enchant as i16, 1);
    assert_eq!(w.is_cursed, 0);
    state.pack.0[0].which_kind = 3;
    ReadScrollEvent::S3Read(ObjectId(1)).dispatch(&mut state, "apple", "blue");
    assert_eq!(state.messages[1], "your armor glows blue for a moment");
    assert_eq!(state.pack.0[2].d_enchant, 99);
    assert_eq!(state.pack.0[2].is_cursed, 0);
    assert!(state.stats_changed);
}

#[test]
fn without_gear_the_rogue_only_feels_things() {
    let mut state = reader(vec![thing(1, ObjectWhat::Scroll, 2, 1, 'a')]);
    ReadScrollEvent::S3Read(ObjectId(1)).dispatch(&mut state, "apple", "blue");
    state.pack.0[0].which_kind = 3;
    ReadScrollEvent::S3Read(ObjectId(1)).dispatch(&mut state, "apple", "blue");
    state.pack.0[0].which_kind = 0;
    ReadScrollEvent::S3Read(ObjectId(1)).dispatch(&mut state, "apple", "blue");
    assert_eq!(
        state.messages,
        vec![
            "your hands tingle".to_string(),
            "your skin crawls".to_string(),
            "your acne seems to have disappeared".to_string()
        ]
    );
}

#[test]
fn protection_and_uncursing() {
    let mut armor = thing(3, ObjectWhat::Armor, 0, 1, 'c');
    armor.is_cursed = 1;
    let mut ring = thing(4, ObjectWhat::Ring, 1, 1, 'd');
    ring.is_cursed = 1;
    let mut state = reader(vec![thing(1, ObjectWhat::Scroll, 0, 3, 'a'), armor, ring]);
    state.armor_id = Some(ObjectId(3));
    ReadScrollEvent::S3Read(ObjectId(1)).dispatch(&mut state, "apple", "blue");
    assert_eq!(state.messages, vec!["your armor is covered by a shimmering gold shield".to_string()]);
    assert_eq!(state.pack.0[1].is_protected, 1);
    assert_eq!(state.pack.0[1].is_cursed, 0);
    state.pack.0[0].which_kind = 8;
    state.halluc = true;
    ReadScrollEvent::S3Read(ObjectId(1)).dispatch(&mut state, "apple", "blue");
    assert_eq!(state.messages[1], "you feel in touch with the universal oneness");
    assert_eq!(state.pack.0[2].is_cursed, 0);
    let mut pack = ObjectPack(vec![ring]);
    uncurse_all(&mut pack);
    assert_eq!(pack.0[0].is_cursed, 0);
}

#[test]
fn holding_freezes_nearby_monsters() {
    let mut state = reader(vec![thing(1, ObjectWhat::Scroll, 1, 1, 'a')]);
    for row in 5..16 {
        for col in 5..16 {
            state.level.dungeon[row].cols[col] =
                DungeonCell { material: CellMaterial::Floor(FloorFixture::Nothing), object: ObjectWhat::Nothing, monster: false };
        }
    }
    let near = Monster {
        id: 7,
        kind: MonsterKind::Orc,
        m_flags: MonsterFlags::empty(),
        spot: DungeonSpot { row: 11, col: 12 },
        slowed_toggle: false,
        target_spot: None,
        nap_length: 0,
        stuck_counter: StuckCounter { row: 0, col: 0, count: 0 },
        moves_confused: 0,
        stationary_damage: 0,
        hp_to_kill: 10,
        killed: false,
        drop_percent: 0,
    };
    let mut far = near;
    far.id = 8;
    far.spot = DungeonSpot { row: 14, col: 14 };
    airdrop_monster_at(11, 12, near, &mut state.level, &mut state.mash);
    airdrop_monster_at(14, 14, far, &mut state.level, &mut state.mash);
    state.mash.monster_mut(7).m_flags.wakens = true;
    ReadScrollEvent::S3Read(ObjectId(1)).dispatch(&mut state, "apple", "blue");
    assert_eq!(state.messages, vec!["the monster freezes".to_string()]);
    assert!(state.mash.monster(7).m_flags.asleep);
    assert!(!state.mash.monster(7).m_flags.wakens);
    assert!(!state.mash.monster(8).m_flags.asleep);
}

#[test]
fn identify_hands_out_the_menu_and_names_the_pick() {
    let mut state = reader(vec![thing(1, ObjectWhat::Scroll, 4, 2, 'a'), thing(2, ObjectWhat::Potion, 2, 1, 'b')]);
    let step = ReadScrollEvent::S3Read(ObjectId(1)).dispatch(&mut state, "apple", "blue");
    assert_eq!(step, ReadStep::Outside(ScrollWork::Identify, ObjectId(1), ScrollKind::Identify));
    assert_eq!(state.messages, vec!["this is a scroll of identify".to_string()]);
    assert!(state.pack.0[0].identified);
    assert_eq!(state.notes.scrolls[4].status, NoteStatus::Identified);
    assert_eq!(identify_pick(&mut state, MenuInput::Item('q'), "apple", false), IdentifyStep::AwaitMenu);
    assert_eq!(state.messages[1..], ["no such item, try again".to_string(), "".to_string()]);
    assert_eq!(identify_pick(&mut state, MenuInput::Item('b'), "apple", false), IdentifyStep::AwaitMenu);
    assert_eq!(state.messages[3], "a potion of healing (b)");
    assert_eq!(state.notes.potions[2].status, NoteStatus::Identified);
    assert_eq!(identify_pick(&mut state, MenuInput::Close, "apple", false), IdentifyStep::Done);
}

fn drinker(pack: Vec<Object>) -> QuaffState {
    QuaffState { pack: ObjectPack(pack), notes: NoteTables::new(), message_line: None, stats_changed: false }
}

#[test]
fn quaffing_asks_checks_and_drinks() {
    let mut state = drinker(vec![thing(1, ObjectWhat::Potion, 2, 2, 'a'), thing(2, ObjectWhat::Scroll, 0, 1, 'b')]);
    assert!(matches!(QuaffPotionEvent::new().dispatch(&mut state), QuaffStep::AwaitMenu));
    assert_eq!(state.message_line.as_deref(), Some("quaff what?"));
    assert!(matches!(
        QuaffPotionEvent::S2Select(MenuInput::Close).dispatch(&mut state),
        QuaffStep::Next(QuaffPotionEvent::S3Cancel(None))
    ));
    match QuaffPotionEvent::S2Select(MenuInput::Item('z')).dispatch(&mut state) {
        QuaffStep::Next(QuaffPotionEvent::S3Cancel(Some(m))) => assert_eq!(m, "no such item."),
        other => panic!("unexpected {:?}", other),
    }
    assert!(matches!(
        QuaffPotionEvent::S3Cancel(Some("no such item.".to_string())).dispatch(&mut state),
        QuaffStep::AwaitMove
    ));
    assert_eq!(state.message_line.as_deref(), Some("no such item."));
    match QuaffPotionEvent::S4Sip(ObjectId(2)).dispatch(&mut state) {
        QuaffStep::Next(QuaffPotionEvent::S3Cancel(Some(m))) => assert_eq!(m, "you can't drink that"),
        other => panic!("unexpected {:?}", other),
    }
    assert!(matches!(
        QuaffPotionEvent::S4Sip(ObjectId(1)).dispatch(&mut state),
        QuaffStep::Next(QuaffPotionEvent::S5Gulp(ObjectId(1), PotionKind::Healing))
    ));
    assert!(matches!(
        QuaffPotionEvent::S5Gulp(ObjectId(1), PotionKind::Healing).dispatch(&mut state),
        QuaffStep::Drink(PotionKind::Healing)
    ));
    assert_eq!(state.pack.0[0].quantity, 1);
    assert_eq!(state.notes.potions[2].status, NoteStatus::Identified);
    assert!(state.stats_changed);
    assert!(matches!(QuaffPotionEvent::S6End.dispatch(&mut state), QuaffStep::RegMove));
}

#[test]
fn picking_up_names_the_object_and_its_letter() {
    let pack = ObjectPack(vec![thing(5, ObjectWhat::Food, RATION, 3, 'c')]);
    let notes = NoteTables::new();
    assert_eq!(pack.to_pickup_line_maybe(ObjectId(5), "apple", &notes, false), "3 rations of food (c)");
}

