use rogue::actions::wizard::{WizardObjectEvent, WizardObjectState, WizardObjectStep};
use rogue::monster::roll::roll_monster;
use rogue::motion::CANCEL_CHAR;
use rogue::object_what::ObjectWhat;
use rogue::objects::pack::{combine_or_add_item_to_pack, next_avail_ichar, pack_weight};
use rogue::objects::roll::{alloc_object, get_food, gr_armor, gr_ring, gr_wand, gr_weapon};
use rogue::objects::{Object, FRUIT, RATION};

fn state() -> WizardObjectState {
    WizardObjectState { pack: Vec::new(), messages: Vec::new() }
}

#[test]
fn rolled_weapons_armor_wands_food_and_rings() {
    for _ in 0..50 {
        let mut w = alloc_object();
        gr_weapon(&mut w, true);
        assert_eq!(w.what_is, ObjectWhat::Weapon);
        assert!(w.which_kind < 8);
        let total = w.hit_enchant as isize + w.d_enchant;
        assert!(total >= -3 && total <= 3);
        if total < 0 {
            assert_eq!(w.is_cursed, 1);
        }
        let mut a = alloc_object();
        gr_armor(&mut a);
        assert!(a.which_kind < 7);
        let expected_class = if a.which_kind >= 5 { a.which_kind as isize + 1 } else { a.which_kind as isize + 2 };
        assert_eq!(a.class, expected_class);
        assert!(a.d_enchant >= -3 && a.d_enchant <= 3);
        let mut wand = alloc_object();
        gr_wand(&mut wand);
        assert!(wand.which_kind < 10);
        if wand.which_kind == 7 {
            assert!(wand.class >= 6 && wand.class <= 12);
        }
        let mut food = alloc_object();
        get_food(&mut food, true);
        assert_eq!(food.which_kind, RATION);
        get_food(&mut food, false);
        assert!(food.which_kind == RATION || food.which_kind == FRUIT);
        let mut ring = alloc_object();
        ring.which_kind = 4;
        gr_ring(&mut ring, false);
        assert!(ring.class != 0 && ring.class >= -2 && ring.class <= 2);
        assert_eq!(ring.is_cursed == 1, ring.class < 0);
    }
}

#[test]
fn letters_and_joining_in_the_pack() {
    let mut pack: Vec<Object> = Vec::new();
    let mut potion = alloc_object();
    potion.what_is = ObjectWhat::Potion;
    potion.which_kind = 3;
    combine_or_add_item_to_pack(&mut pack, potion);
    assert_eq!(pack[0].ichar, 'a');
    combine_or_add_item_to_pack(&mut pack, potion);
    assert_eq!(pack.len(), 1);
    assert_eq!(pack[0].quantity, 2);
    let mut wand = alloc_object();
    wand.what_is = ObjectWhat::Wand;
    combine_or_add_item_to_pack(&mut pack, wand);
    combine_or_add_item_to_pack(&mut pack, wand);
    assert_eq!(pack.len(), 3);
    assert_eq!(pack[2].ichar, 'c');
    assert_eq!(next_avail_ichar(&pack), 'd');
    assert_eq!(pack_weight(&pack), 4);
}

#[test]
fn a_wizard_makes_objects() {
    let mut s = state();
    assert_eq!(WizardObjectEvent::Start.dispatch(&mut s), WizardObjectStep::AwaitClass);
    assert_eq!(WizardObjectEvent::Class(CANCEL_CHAR).dispatch(&mut s), WizardObjectStep::Done);
    match WizardObjectEvent::Class(',').dispatch(&mut s) {
        WizardObjectStep::Added(o) => assert_eq!(o.what_is, ObjectWhat::Amulet),
        _ => panic!("the amulet is added"),
    }
    assert_eq!(s.pack.len(), 1);
    let step = WizardObjectEvent::Class('=').dispatch(&mut s);
    let (obj, max_kind) = match step {
        WizardObjectStep::AwaitKind { obj, max_kind } => (obj, max_kind),
        _ => panic!("a ring asks for its kind"),
    };
    assert_eq!(max_kind, 10);
    assert_eq!(WizardObjectEvent::Kind { obj, max_kind, kind: None }.dispatch(&mut s), WizardObjectStep::Done);
    match (WizardObjectEvent::Kind { obj, max_kind, kind: Some(1) }).dispatch(&mut s) {
        WizardObjectStep::Added(o) => {
            assert_eq!(o.what_is, ObjectWhat::Ring);
            assert_eq!(o.which_kind, 1);
            assert_eq!(o.is_cursed, 1);
        },
        _ => panic!("the ring is added"),
    }
    assert_eq!(s.pack.len(), 2);
    for _ in 0..22 {
        WizardObjectEvent::Class(':').dispatch(&mut s);
    }
    assert_eq!(WizardObjectEvent::Start.dispatch(&mut s), WizardObjectStep::Done);
    assert_eq!(s.messages, vec!["pack full".to_string()]);
}

#[test]
fn monsters_rolled_for_a_depth() {
    for _ in 0..40 {
        let m = roll_monster(1, 0).unwrap();
        assert!(m.kind.first_level() <= 1 && 1 <= m.kind.last_level());
        assert_eq!(m.hp_to_kill, m.kind.hp_to_kill());
        assert!(m.target_spot.is_none());
        let deep = roll_monster(30, 0).unwrap();
        assert!(deep.m_flags.hasted);
    }
    assert!(roll_monster(1000, 0).is_none());
}
