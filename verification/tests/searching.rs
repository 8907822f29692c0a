use rogue::actions::search::{search, SearchKind, SearchState};
use rogue::level::cells::DungeonCell;
use rogue::level::materials::{CellMaterial, FloorFixture, Visibility};
use rogue::level::Level;
use rogue::object_what::ObjectWhat;
use rogue::room::DoorDirection;
use rogue::spot::DungeonSpot;

fn cell(material: CellMaterial) -> DungeonCell {
    DungeonCell { material, object: ObjectWhat::Nothing, monster: false }
}

fn searcher(level: Level, buffed_exp: usize) -> SearchState {
    SearchState {
        level,
        rogue: DungeonSpot { row: 10, col: 10 },
        buffed_exp,
        interrupted: false,
        found_traps: Vec::new(),
        reg_search_count: 0,
    }
}

fn plain_level() -> Level {
    let mut level = Level::new();
    for row in 8..13 {
        for col in 8..13 {
            level.dungeon[row].cols[col] = cell(CellMaterial::Floor(FloorFixture::Nothing));
        }
    }
    level
}

#[test]
fn searching_nothing_counts_and_every_second_yields() {
    let mut state = searcher(plain_level(), 1);
    assert!(!search(SearchKind::Manual, &mut state));
    assert_eq!(state.reg_search_count, 1);
    assert!(search(SearchKind::Manual, &mut state));
    assert_eq!(state.reg_search_count, 2);
    assert!(!search(SearchKind::Auto { n: 3 }, &mut state));
    assert_eq!(state.reg_search_count, 2);
}

#[test]
fn a_sharp_rogue_finds_a_hidden_door() {
    let mut level = plain_level();
    level.dungeon[11].cols[10] = cell(CellMaterial::Door(DoorDirection::Down, Visibility::Hidden));
    let mut state = searcher(level, 90);
    assert!(!search(SearchKind::Manual, &mut state));
    assert_eq!(state.level.dungeon[11].cols[10].material, CellMaterial::Door(DoorDirection::Down, Visibility::Visible));
    assert!(!state.interrupted);
    assert!(state.found_traps.is_empty());
    assert_eq!(state.reg_search_count, 0);
}

#[test]
fn a_found_trap_interrupts_and_ends_the_search() {
    let mut level = plain_level();
    level.dungeon[9].cols[9] = cell(CellMaterial::Floor(FloorFixture::Trap(Visibility::Hidden)));
    level.dungeon[9].cols[10] = cell(CellMaterial::Door(DoorDirection::Up, Visibility::Hidden));
    let mut state = searcher(level, 90);
    search(SearchKind::Auto { n: 5 }, &mut state);
    assert_eq!(state.level.dungeon[9].cols[9].material, CellMaterial::Floor(FloorFixture::Trap(Visibility::Visible)));
    assert_eq!(state.found_traps, vec![DungeonSpot { row: 9, col: 9 }]);
    assert!(state.interrupted);
    assert_eq!(state.level.dungeon[9].cols[10].material, CellMaterial::Door(DoorDirection::Up, Visibility::Hidden));
}

#[test]
fn an_interrupted_rogue_searches_one_spot_only() {
    let mut level = plain_level();
    level.dungeon[9].cols[10] = cell(CellMaterial::Door(DoorDirection::Up, Visibility::Hidden));
    level.dungeon[11].cols[10] = cell(CellMaterial::Door(DoorDirection::Down, Visibility::Hidden));
    let mut state = searcher(level, 90);
    state.interrupted = true;
    search(SearchKind::Manual, &mut state);
    assert_eq!(state.level.dungeon[9].cols[10].material, CellMaterial::Door(DoorDirection::Up, Visibility::Visible));
    assert_eq!(state.level.dungeon[11].cols[10].material, CellMaterial::Door(DoorDirection::Down, Visibility::Hidden));
}

#[test]
fn a_search_finds_each_spot_at_most_once_in_a_round() {
    for _ in 0..30 {
        let mut level = plain_level();
        level.dungeon[11].cols[11] = cell(CellMaterial::Door(DoorDirection::Down, Visibility::Hidden));
        let mut state = searcher(level, 0);
        search(SearchKind::Auto { n: 4 }, &mut state);
        let m = state.level.dungeon[11].cols[11].material;
        assert!(m == CellMaterial::Door(DoorDirection::Down, Visibility::Visible)
            || m == CellMaterial::Door(DoorDirection::Down, Visibility::Hidden));
        assert!(!state.interrupted);
    }
}
