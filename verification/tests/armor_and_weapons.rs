use rogue::actions::gear::{
    choose_ring, free_hand, hand_usage, inv_armor_weapon, inv_rings, put_ring, remove_ring, start_put_on_ring, start_wear, start_wield, take_off_check,
    unwear, wear, wield, wields_cursed_weapon, HandUsage, PlayerHand,
};
use rogue::actions::naming::{call_it, call_target};
use rogue::actions::wizard::{enter_wizard_password, start_wizardize, WizardState};
use rogue::motion::CANCEL_CHAR;
use rogue::objects::note_tables::NoteTables;
use rogue::objects::{NoteStatus, Title};
use rogue::object_what::ObjectWhat;
use rogue::objects::{Object, ObjectId, BEING_WIELDED, BEING_WORN, ON_LEFT_HAND, ON_RIGHT_HAND};
use rogue::spot::DungeonSpot;

fn item(id: u64, what_is: ObjectWhat, ichar: char) -> Object {
    Object {
        id: ObjectId(id),
        what_is,
        which_kind: 0,
        in_use_flags: 0,
        quantity: 1,
        ichar,
        is_protected: 0,
        is_cursed: 0,
        class: 3,
        identified: false,
        spot: DungeonSpot { row: 0, col: 0 },
        hit_enchant: 0,
        d_enchant: 0,
        quiver: 0,
        picked_up: 0,
    }
}

fn pack() -> Vec<Object> {
    vec![item(1, ObjectWhat::Armor, 'a'), item(2, ObjectWhat::Weapon, 'b'), item(3, ObjectWhat::Weapon, 'c'), item(4, ObjectWhat::Ring, 'd')]
}

#[test]
fn wearing_armor() {
    let mut p = pack();
    let mut messages: Vec<String> = Vec::new();
    assert!(start_wear(&p, &mut messages));
    assert_eq!(wear(CANCEL_CHAR, &mut p, &mut messages), None);
    assert_eq!(wear('z', &mut p, &mut messages), None);
    assert_eq!(wear('b', &mut p, &mut messages), None);
    assert_eq!(messages, vec!["no such item.".to_string(), "you can't wear that".to_string()]);
    assert_eq!(wear('a', &mut p, &mut messages), Some(ObjectId(1)));
    assert!(p[0].identified);
    assert_eq!(p[0].in_use_flags, BEING_WORN);
    assert!(!start_wear(&p, &mut messages));
    assert_eq!(messages.last().unwrap(), "your already wearing some");
}

#[test]
fn taking_off_armor() {
    let mut p = pack();
    let mut messages: Vec<String> = Vec::new();
    assert_eq!(take_off_check(&p, &mut messages), None);
    assert_eq!(messages, vec!["not wearing any".to_string()]);
    p[0].in_use_flags = BEING_WORN;
    assert_eq!(take_off_check(&p, &mut messages), Some(0));
    assert_eq!(unwear(0, &mut p), ObjectId(1));
    assert_eq!(p[0].in_use_flags, 0);
    p[0].in_use_flags = BEING_WORN;
    p[0].is_cursed = 1;
    assert_eq!(take_off_check(&p, &mut messages), None);
    assert_eq!(messages.last().unwrap(), "you can't, it appears to be cursed");
}

#[test]
fn wielding_weapons() {
    let mut p = pack();
    let mut messages: Vec<String> = Vec::new();
    assert!(start_wield(&p, &mut messages));
    assert_eq!(wield('a', &mut p, &mut messages), None);
    assert_eq!(wield('d', &mut p, &mut messages), None);
    assert_eq!(wield('y', &mut p, &mut messages), None);
    assert_eq!(wield('b', &mut p, &mut messages), Some(ObjectId(2)));
    assert_eq!(wield('b', &mut p, &mut messages), None);
    assert_eq!(
        messages,
        vec![
            "you can't wield armor".to_string(),
            "you can't wield rings".to_string(),
            "No such item.".to_string(),
            "in use".to_string()
        ]
    );
    assert_eq!(wield('c', &mut p, &mut messages), Some(ObjectId(3)));
    assert_eq!(p[1].in_use_flags, 0);
    assert_eq!(p[2].in_use_flags, BEING_WIELDED);
    p[2].is_cursed = 1;
    assert!(wields_cursed_weapon(&p));
    assert!(!start_wield(&p, &mut messages));
}

#[test]
fn putting_on_and_removing_rings() {
    let mut p = pack();
    p.push(item(5, ObjectWhat::Ring, 'e'));
    let mut messages: Vec<String> = Vec::new();
    assert_eq!(hand_usage(&p), HandUsage::Neither);
    assert!(start_put_on_ring(&p, &mut messages));
    assert_eq!(choose_ring('a', &p, &mut messages), None);
    assert_eq!(choose_ring('d', &p, &mut messages), Some(3));
    assert_eq!(free_hand(HandUsage::Neither), None);
    assert_eq!(put_ring(3, PlayerHand::Left, &mut p, &mut messages), Some(ObjectId(4)));
    assert_eq!(p[3].in_use_flags, ON_LEFT_HAND);
    assert_eq!(hand_usage(&p), HandUsage::Left);
    assert_eq!(choose_ring('d', &p, &mut messages), None);
    assert_eq!(free_hand(HandUsage::Left), Some(PlayerHand::Right));
    assert_eq!(put_ring(4, PlayerHand::Left, &mut p, &mut messages), None);
    assert_eq!(put_ring(4, PlayerHand::Right, &mut p, &mut messages), Some(ObjectId(5)));
    assert_eq!(p[4].in_use_flags, ON_RIGHT_HAND);
    assert!(!start_put_on_ring(&p, &mut messages));
    assert_eq!(
        messages,
        vec![
            "that's not a ring".to_string(),
            "that ring is already being worn".to_string(),
            "there's already a ring on that hand".to_string(),
            "wearing two rings already".to_string()
        ]
    );
    p[4].is_cursed = 1;
    assert_eq!(remove_ring(PlayerHand::Right, &mut p, &mut messages), None);
    assert_eq!(messages.last().unwrap(), "you can't, it appears to be cursed");
    assert_eq!(remove_ring(PlayerHand::Left, &mut p, &mut messages), Some(ObjectId(4)));
    assert_eq!(p[3].in_use_flags, 0);
    assert_eq!(remove_ring(PlayerHand::Left, &mut p, &mut messages), None);
    assert_eq!(messages.last().unwrap(), "there's no ring on that hand");
}

#[test]
fn calling_a_kind_by_a_name() {
    let mut p = pack();
    p.push(item(6, ObjectWhat::Potion, 'f'));
    p[4].which_kind = 3;
    let mut messages: Vec<String> = Vec::new();
    assert_eq!(call_target(CANCEL_CHAR, &p, &mut messages), None);
    assert_eq!(call_target('a', &p, &mut messages), None);
    assert_eq!(call_target('q', &p, &mut messages), None);
    assert_eq!(call_target('f', &p, &mut messages), Some((ObjectWhat::Potion, 3)));
    assert_eq!(
        messages,
        vec!["surely you already know what that's called".to_string(), "no such item.".to_string()]
    );
    let mut notes = NoteTables::new();
    call_it(ObjectWhat::Potion, 3, String::new(), &mut notes);
    assert_eq!(notes.potions[3].status, NoteStatus::Unidentified);
    call_it(ObjectWhat::Potion, 3, "fizzy".to_string(), &mut notes);
    assert_eq!(notes.potions[3].status, NoteStatus::Called);
    assert_eq!(notes.potions[3].title, Title::UserString("fizzy".to_string()));
}

#[test]
fn becoming_a_wizard_and_leaving_off() {
    let mut state = WizardState { wizard: false, score_only: false, messages: Vec::new() };
    assert!(start_wizardize(&mut state));
    enter_wizard_password(String::new(), &mut state);
    assert!(state.messages.is_empty());
    enter_wizard_password("cat".to_string(), &mut state);
    assert!(!state.wizard);
    enter_wizard_password("neko?".to_string(), &mut state);
    assert!(state.wizard && state.score_only);
    assert_eq!(state.messages, vec!["sorry".to_string(), "Welcome, mighty wizard!".to_string()]);
    assert!(!start_wizardize(&mut state));
    assert!(!state.wizard);
    assert_eq!(state.messages.last().unwrap(), "not wizard anymore");
}

#[test]
fn showing_the_gear_in_use() {
    let mut p = pack();
    let mut messages: Vec<String> = Vec::new();
    assert_eq!(inv_armor_weapon(true, &p, &mut messages), None);
    assert_eq!(inv_armor_weapon(false, &p, &mut messages), None);
    assert!(inv_rings(&p, &mut messages).is_empty());
    assert_eq!(
        messages,
        vec!["not wielding anything".to_string(), "not wearing anything".to_string(), "not wearing any rings".to_string()]
    );
    p[1].in_use_flags = BEING_WIELDED;
    p[0].in_use_flags = BEING_WORN;
    p[3].in_use_flags = ON_RIGHT_HAND;
    assert_eq!(inv_armor_weapon(true, &p, &mut messages), Some('b'));
    assert_eq!(inv_armor_weapon(false, &p, &mut messages), Some('a'));
    assert_eq!(inv_rings(&p, &mut messages), vec![ObjectId(4)]);
    assert_eq!(messages.len(), 3);
}
