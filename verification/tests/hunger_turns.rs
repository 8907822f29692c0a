use rogue::components::hunger::HungerLevel;
use rogue::motion::{check_hunger, HungerCheckResult, HungerState};

fn fed(moves_left: isize, hunger: HungerLevel) -> HungerState {
    HungerState { moves_left, hunger, messages: Vec::new(), stats_changed: false }
}

#[test]
fn a_plain_turn_burns_one_move_and_turns_hungry_at_the_threshold() {
    let mut state = fed(301, HungerLevel::Normal);
    let r = check_hunger(&mut state, 0);
    assert_eq!(r, (HungerCheckResult::StillWalking, 0));
    assert_eq!(state.moves_left, 300);
    assert_eq!(state.hunger, HungerLevel::Hungry);
    assert_eq!(state.messages, vec!["hungry".to_string()]);
    assert!(state.stats_changed);
}

#[test]
fn slow_digestion_burns_nothing() {
    let mut state = fed(301, HungerLevel::Normal);
    let r = check_hunger(&mut state, -2);
    assert_eq!(r, (HungerCheckResult::StillWalking, 0));
    assert_eq!(state.moves_left, 301);
    assert_eq!(state.hunger, HungerLevel::Normal);
    assert!(state.messages.is_empty());
    assert!(!state.stats_changed);
}

#[test]
fn every_other_turn_burns_on_odd_counts_only() {
    let mut state = fed(500, HungerLevel::Normal);
    check_hunger(&mut state, -1);
    assert_eq!(state.moves_left, 500);
    let mut state = fed(501, HungerLevel::Normal);
    check_hunger(&mut state, -1);
    assert_eq!(state.moves_left, 500);
    let mut state = fed(501, HungerLevel::Normal);
    check_hunger(&mut state, 1);
    assert_eq!(state.moves_left, 499);
}

#[test]
fn burning_two_does_not_skip_a_threshold() {
    let mut state = fed(301, HungerLevel::Normal);
    check_hunger(&mut state, 2);
    assert_eq!(state.moves_left, 299);
    assert_eq!(state.hunger, HungerLevel::Hungry);
    assert_eq!(state.messages, vec!["hungry".to_string()]);
}

#[test]
fn running_out_of_food_starves() {
    let mut state = fed(1, HungerLevel::Faint);
    let r = check_hunger(&mut state, 0);
    assert_eq!(r, (HungerCheckResult::DidStarve, 0));
    assert_eq!(state.moves_left, 0);
    assert_eq!(state.hunger, HungerLevel::Starved);
    assert_eq!(state.messages, vec!["starved".to_string()]);
}

#[test]
fn reaching_the_faint_threshold_does_not_fall_yet() {
    let mut state = fed(21, HungerLevel::Weak);
    let r = check_hunger(&mut state, 0);
    assert_eq!(r, (HungerCheckResult::StillWalking, 0));
    assert_eq!(state.hunger, HungerLevel::Faint);
    assert_eq!(state.messages, vec!["faint".to_string()]);
}

#[test]
fn a_fainting_rogue_lies_still_at_most_its_shortfall() {
    for _ in 0..50 {
        let mut state = fed(6, HungerLevel::Faint);
        let (result, turns) = check_hunger(&mut state, 0);
        match result {
            HungerCheckResult::DidFaint => {
                assert!(turns >= 1 && turns <= 15);
                assert!(state.moves_left == 5 || state.moves_left == 6);
                assert_eq!(state.messages, vec!["you faint".to_string()]);
            }
            HungerCheckResult::StillWalking => {
                assert_eq!(turns, 0);
                assert_eq!(state.moves_left, 5);
                assert!(state.messages.is_empty());
            }
            HungerCheckResult::DidStarve => panic!("a rogue with food left starved"),
        }
    }
}

#[test]
fn wounds_heal_at_the_pace_of_the_level() {
    let mut healer = rogue::components::healing::Healer::new();
    let mut hp: isize = 5;
    for _ in 0..19 {
        assert!(!healer.heal(&mut hp, 12, 1, 0));
        assert_eq!(hp, 5);
    }
    assert!(healer.heal(&mut hp, 12, 1, 0));
    assert_eq!(hp, 7);
    assert_eq!(healer.time_between_heals, 20);
    for _ in 0..19 {
        healer.heal(&mut hp, 12, 1, 0);
    }
    assert!(healer.heal(&mut hp, 12, 1, 0));
    assert_eq!(hp, 8);
    let mut high = rogue::components::healing::Healer::new();
    let mut hp2: isize = 10;
    assert!(!high.heal(&mut hp2, 12, 12, 3));
    assert!(high.heal(&mut hp2, 12, 12, 3));
    assert_eq!(hp2, 12);
    assert!(!high.heal(&mut hp2, 12, 12, 3));
    assert_eq!(high.time_since_last_heal_or_damage, 0);
}

#[test]
fn a_fed_rogue_skips_the_hunger_check() {
    let mut state = fed(800, HungerLevel::Normal);
    assert_eq!(rogue::motion::reg_move_hunger(&mut state, 0, false), (HungerCheckResult::StillWalking, 0));
    assert_eq!(state.moves_left, 800);
    assert_eq!(rogue::motion::reg_move_hunger(&mut state, 0, true), (HungerCheckResult::StillWalking, 0));
    assert_eq!(state.moves_left, 799);
    let mut hungry = fed(1, HungerLevel::Faint);
    assert_eq!(rogue::motion::reg_move_hunger(&mut hungry, 0, false), (HungerCheckResult::DidStarve, 0));
}

#[test]
fn the_rest_of_a_turn_ticks_every_condition() {
    let mut m_moves: usize = 118;
    let mut timers = rogue::motion::Timers { halluc: 3, blind: 0, confused: 1, bear_trap: 2, levitate: 1, haste_self: 1 };
    let mut interrupted = false;
    let mut messages = Vec::new();
    assert!(!rogue::motion::reg_move_after_monsters(&mut m_moves, &mut timers, &mut interrupted, &mut messages));
    assert_eq!(m_moves, 119);
    assert_eq!(timers, rogue::motion::Timers { halluc: 2, blind: 0, confused: 0, bear_trap: 1, levitate: 0, haste_self: 0 });
    assert!(interrupted);
    assert_eq!(
        messages,
        vec!["you float gently to the ground".to_string(), "you feel yourself slowing down".to_string()]
    );
    assert!(rogue::motion::reg_move_after_monsters(&mut m_moves, &mut timers, &mut interrupted, &mut messages));
    assert_eq!(m_moves, 0);
    assert_eq!(messages.len(), 2);
}
