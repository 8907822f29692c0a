use rogue::actions::eat::{EatMealEvent, EatStep, EaterState, Meal, MenuInput};
use rogue::console::{start, ConsoleError};
use rogue::hit::damage_stat::DamageStat;
use rogue::level::RogueExp;
use rogue::object_what::ObjectWhat;
use rogue::objects::{Object, ObjectId, FRUIT, RATION};
use rogue::spot::DungeonSpot;

fn food(id: u64, kind: u16, quantity: i16, ichar: char) -> Object {
    Object {
        id: ObjectId(id),
        what_is: ObjectWhat::Food,
        which_kind: kind,
        in_use_flags: 0,
        quantity,
        ichar,
        is_protected: 0,
        is_cursed: 0,
        class: 0,
        identified: true,
        spot: DungeonSpot { row: 0, col: 0 },
        hit_enchant: 0,
        d_enchant: 0,
        quiver: 0,
        picked_up: 0,
    }
}

fn eater(pack: Vec<Object>) -> EaterState {
    EaterState { pack, moves_left: 300, message_line: None, exp: RogueExp::new(), stats_changed: false }
}

#[test]
fn parse_reads_every_die() {
    assert_eq!(DamageStat::parse("1d3/2d4"), vec![DamageStat { hits: 1, damage: 3 }, DamageStat { hits: 2, damage: 4 }]);
    assert_eq!(DamageStat::parse("0d0"), vec![DamageStat { hits: 0, damage: 0 }]);
    assert_eq!(DamageStat::parse("+3d+5"), vec![DamageStat { hits: 3, damage: 5 }]);
    assert_eq!(DamageStat::parse("none/1d2"), vec![DamageStat { hits: 1, damage: 2 }]);
    assert_eq!(DamageStat::parse(""), vec![]);
    assert_eq!(DamageStat::parse_first("4d6/1d1"), DamageStat { hits: 4, damage: 6 });
}

#[test]
fn console_needs_a_full_screen() {
    assert!(start(24, 80).is_ok());
    assert!(!start(24, 80).unwrap().stopped);
    match start(23, 100) {
        Err(ConsoleError::ScreenTooSmall { min_rows, min_cols }) => {
            assert_eq!((min_rows, min_cols), (24, 80));
        }
        Ok(_) => panic!("a short screen was taken"),
    }
    assert!(start(30, 79).is_err());
}

#[test]
fn meals_taste_as_they_should() {
    for _ in 0..50 {
        let meal = Meal::prepare(FRUIT, "mango");
        assert!(!meal.gains_exp);
        assert!(meal.calories >= 900 && meal.calories <= 1100);
        assert_eq!(meal.message, "my, that was a yummy mango");
        let ration = Meal::prepare(RATION, "mango");
        if ration.gains_exp {
            assert_eq!(ration.message, "yuk, that food tasted awful");
            assert!(ration.calories >= 700 && ration.calories <= 900);
        } else {
            assert_eq!(ration.message, "yum, that tasted good");
        }
    }
}

#[test]
fn eating_asks_then_checks_then_swallows() {
    let mut state = eater(vec![food(1, RATION, 2, 'a'), food(2, FRUIT, 1, 'b')]);
    assert_eq!(EatMealEvent::new().dispatch(&mut state, "mango"), EatStep::AwaitMenu);
    assert_eq!(state.message_line, Some("eat what?".to_string()));
    assert_eq!(EatMealEvent::S2Select(MenuInput::Close).dispatch(&mut state, "mango"), EatStep::AwaitMove);
    assert_eq!(EatMealEvent::S2Select(MenuInput::Item('z')).dispatch(&mut state, "mango"), EatStep::AwaitMove);
    assert_eq!(state.message_line, Some("no such item.".to_string()));
    assert_eq!(
        EatMealEvent::S2Select(MenuInput::Item('b')).dispatch(&mut state, "mango"),
        EatStep::Next(EatMealEvent::S3Chew(ObjectId(2)))
    );
    assert_eq!(
        EatMealEvent::S3Chew(ObjectId(2)).dispatch(&mut state, "mango"),
        EatStep::Next(EatMealEvent::S4Swallow(ObjectId(2)))
    );
    assert_eq!(EatMealEvent::S4Swallow(ObjectId(2)).dispatch(&mut state, "mango"), EatStep::RegMove);
    assert_eq!(state.pack.len(), 1);
    assert!(state.moves_left >= 100 + 900 && state.moves_left <= 100 + 1100);
    assert_eq!(state.message_line, Some("my, that was a yummy mango".to_string()));
    assert!(state.stats_changed);
    let step = EatMealEvent::S4Swallow(ObjectId(1)).dispatch(&mut state, "mango");
    assert_eq!(state.pack.len(), 1);
    assert_eq!(state.pack[0].quantity, 1);
    if step == EatStep::UpgradeRogueThenRegMove {
        assert_eq!(state.exp.points, 2);
    } else {
        assert_eq!(step, EatStep::RegMove);
    }
}

#[test]
fn only_food_is_eaten() {
    let mut gold = food(3, 0, 1, 'c');
    gold.what_is = ObjectWhat::Gold;
    let mut state = eater(vec![gold]);
    assert_eq!(EatMealEvent::S3Chew(ObjectId(3)).dispatch(&mut state, "mango"), EatStep::AwaitMove);
    assert_eq!(state.message_line, Some("you can't eat that".to_string()));
}
