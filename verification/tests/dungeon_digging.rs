use rogue::constants::{DCOLS, DROWS, MAX_ROOM};
use rogue::level::dig::{
    add_mazes, connect_rooms, draw_simple_passage, fill_it, fill_out_level, is_all_connected, make_level,
    make_room, put_door, shuffled_rns,
};
use rogue::level::Level;
use rogue::object_what::ObjectWhat;
use rogue::objects::object_pack::ObjectPack;
use rogue::room::{DoorDirection, RoomType};
use rogue::spot::DungeonSpot;

fn laid_out_level() -> Level {
    let mut level = Level::new();
    for rn in 0..MAX_ROOM {
        make_room(rn, 0, 1, 2, &mut level);
    }
    level
}

fn slot_bounds(rn: usize) -> (i64, i64, i64, i64) {
    let left = [0, 27, 53][rn % 3];
    let right = [25, 51, 79][rn % 3];
    let top = [1, 8, 16][rn / 3];
    let bottom = [6, 14, 22][rn / 3];
    (top, right, bottom, left)
}

#[test]
fn make_room_fits_its_slot_and_builds_required_rooms() {
    for _ in 0..50 {
        let level = laid_out_level();
        for rn in 0..MAX_ROOM {
            let room = level.rooms[rn];
            let (top, right, bottom, left) = slot_bounds(rn);
            assert!(room.top_row >= top && room.bottom_row <= bottom);
            assert!(room.left_col >= left && room.right_col <= right);
            assert!(room.bottom_row - room.top_row + 1 >= 4);
            assert!(room.right_col - room.left_col + 1 >= 7);
        }
        for rn in 0..3 {
            assert_eq!(level.rooms[rn].room_type, RoomType::Room);
            let room = level.rooms[rn];
            let corner = level.dungeon[room.top_row as usize].cols[room.left_col as usize];
            assert!(corner.is_horizontal_wall());
            let side = level.dungeon[(room.top_row + 1) as usize].cols[room.left_col as usize];
            assert!(side.is_vertical_wall());
            let inside = level.dungeon[(room.top_row + 1) as usize].cols[(room.left_col + 1) as usize];
            assert!(inside.is_any_floor());
        }
    }
}

#[test]
fn unbuilt_slot_leaves_cells_alone() {
    for _ in 0..30 {
        let level = laid_out_level();
        for rn in 3..MAX_ROOM {
            let room = level.rooms[rn];
            let cell = level.dungeon[room.top_row as usize].cols[room.left_col as usize];
            if room.room_type == RoomType::Nothing {
                assert!(cell.is_nothing());
            } else {
                assert!(cell.is_horizontal_wall());
            }
        }
    }
}

#[test]
fn put_door_marks_a_visible_or_hidden_door_on_the_wall() {
    let mut level = laid_out_level();
    let room = level.rooms[1];
    let spot = put_door(1, DoorDirection::Up, 1, &mut level);
    assert_eq!(spot.row, room.top_row);
    assert!(spot.col > room.left_col && spot.col < room.right_col);
    assert!(level.dungeon[spot.row as usize].cols[spot.col as usize].is_any_door());
    assert_eq!(level.rooms[1].doors[0].door_row, spot.row);
    assert_eq!(level.rooms[1].doors[0].door_col, spot.col);
}

#[test]
fn connect_rooms_links_both_doors() {
    for _ in 0..30 {
        let mut level = laid_out_level();
        assert!(connect_rooms(0, 1, 1, &mut level));
        let d1 = level.rooms[0].doors[1];
        let d2 = level.rooms[1].doors[3];
        assert_eq!(d1.oth_room, Some(1));
        assert_eq!(d2.oth_room, Some(0));
        assert_eq!((d1.oth_row, d1.oth_col), (d2.door_row, d2.door_col));
        assert_eq!((d2.oth_row, d2.oth_col), (d1.door_row, d1.door_col));
    }
}

#[test]
fn connect_rooms_refuses_empty_slots_and_far_slots() {
    let mut level = laid_out_level();
    level.rooms[4].room_type = RoomType::Nothing;
    assert!(!connect_rooms(1, 4, 1, &mut level));
    level.rooms[4].room_type = RoomType::Room;
    assert!(!connect_rooms(0, 4, 1, &mut level));
}

#[test]
fn draw_simple_passage_digs_from_one_end_to_the_other() {
    let mut level = Level::new();
    let a = DungeonSpot { row: 3, col: 10 };
    let b = DungeonSpot { row: 7, col: 30 };
    draw_simple_passage(a, b, DoorDirection::Right, 1, &mut level);
    assert!(level.dungeon[3].cols[11].is_any_tunnel());
    assert!(level.dungeon[7].cols[29].is_any_tunnel());
    assert!(!level.dungeon[3].cols[10].is_any_tunnel());
    assert!(!level.dungeon[7].cols[30].is_any_tunnel());
    let mut count = 0;
    for row in 0..DROWS {
        for col in 0..DCOLS {
            if level.dungeon[row].cols[col].is_any_tunnel() {
                count += 1;
            }
        }
    }
    assert_eq!(count, 23);
}

#[test]
fn all_connected_follows_doors() {
    let mut level = laid_out_level();
    for rn in 0..MAX_ROOM {
        level.rooms[rn].room_type = RoomType::Nothing;
    }
    assert!(is_all_connected(&level.rooms));
    level.rooms[0].room_type = RoomType::Room;
    level.rooms[1].room_type = RoomType::Room;
    assert!(!is_all_connected(&level.rooms));
    level.rooms[1].doors[3].oth_room = Some(0);
    assert!(is_all_connected(&level.rooms));
}

#[test]
fn shuffled_rns_holds_every_slot_once() {
    let rns = shuffled_rns();
    let mut sorted = rns;
    sorted.sort();
    assert_eq!(sorted, [0, 1, 2, 3, 4, 5, 6, 7, 8]);
}

#[test]
fn make_level_keeps_a_band_of_rooms() {
    for depth in 1..20 {
        let mut level = Level::new();
        let mut ground = ObjectPack::new();
        make_level(depth, 0, true, DungeonSpot { row: 0, col: 0 }, &mut level, &mut ground);
        assert!(ground.0.is_empty());
        let lines = [[0, 1, 2], [3, 4, 5], [6, 7, 8], [0, 3, 6], [1, 4, 7], [2, 5, 8]];
        assert!(lines.iter().any(|l| l.iter().all(|&rn| level.rooms[rn].room_type == RoomType::Room)));
    }
}

#[test]
fn add_mazes_does_nothing_on_the_first_level() {
    let mut level = laid_out_level();
    let before: Vec<RoomType> = level.rooms.iter().map(|r| r.room_type).collect();
    add_mazes(1, &mut level);
    let after: Vec<RoomType> = level.rooms.iter().map(|r| r.room_type).collect();
    assert_eq!(before, after);
}

#[test]
fn fill_out_level_turns_empty_slots_into_dead_ends_only() {
    for _ in 0..20 {
        let mut level = laid_out_level();
        connect_rooms(0, 1, 3, &mut level);
        connect_rooms(1, 2, 3, &mut level);
        fill_out_level(&mut level, 3);
        for rn in 0..3 {
            assert_eq!(level.rooms[rn].room_type, RoomType::Room);
        }
        for rn in 3..MAX_ROOM {
            let t = level.rooms[rn].room_type;
            assert!(t == RoomType::Room || t == RoomType::Nothing || t == RoomType::DeadEnd);
        }
    }
}

#[test]
fn fill_it_makes_a_dead_end() {
    let mut found = false;
    for _ in 0..40 {
        let mut level = laid_out_level();
        for rn in 3..MAX_ROOM {
            level.rooms[rn].room_type = RoomType::Nothing;
        }
        fill_it(3, false, 1, &mut level);
        if level.rooms[3].room_type == RoomType::DeadEnd {
            found = true;
        }
    }
    assert!(found);
}

#[test]
fn the_amulet_lies_on_its_level() {
    let mut level = Level::new();
    let mut ground = ObjectPack::new();
    make_level(26, 0, false, DungeonSpot { row: 0, col: 0 }, &mut level, &mut ground);
    assert_eq!(ground.0.len(), 1);
    let amulet = ground.0[0];
    assert_eq!(amulet.what_is, ObjectWhat::Amulet);
    assert_eq!(level.dungeon[amulet.spot.row as usize].cols[amulet.spot.col as usize].object, ObjectWhat::Amulet);
    let mut shallow = Level::new();
    let mut none = ObjectPack::new();
    make_level(25, 0, false, DungeonSpot { row: 0, col: 0 }, &mut shallow, &mut none);
    assert!(none.0.is_empty());
}
