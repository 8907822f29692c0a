use rogue::object_what::ObjectWhat;
use rogue::objects::object_pack::ObjectPack;
use rogue::objects::{Object, ObjectId};
use rogue::spot::DungeonSpot;

fn object(id: u64, what_is: ObjectWhat, row: i64, col: i64) -> Object {
    Object {
        id: ObjectId(id),
        what_is,
        which_kind: 0,
        in_use_flags: 0,
        quantity: 1,
        ichar: 'a',
        is_protected: 0,
        is_cursed: 0,
        class: 0,
        identified: false,
        spot: DungeonSpot { row, col },
        hit_enchant: 0,
        d_enchant: 0,
        quiver: 0,
        picked_up: 0,
    }
}

fn sample() -> ObjectPack {
    let mut pack = ObjectPack::new();
    pack.add(object(1, ObjectWhat::Gold, 3, 4));
    pack.add(object(2, ObjectWhat::Scroll, 5, 6));
    pack.add(object(3, ObjectWhat::Potion, 5, 6));
    pack
}

#[test]
fn adding_and_removing() {
    let mut pack = sample();
    assert_eq!(pack.len(), 3);
    assert!(!pack.is_empty());
    assert_eq!(pack.object_ids(), vec![ObjectId(1), ObjectId(2), ObjectId(3)]);
    let removed = pack.remove(ObjectId(2));
    assert_eq!(removed.map(|o| o.id), Some(ObjectId(2)));
    assert_eq!(pack.object_ids(), vec![ObjectId(1), ObjectId(3)]);
    assert!(pack.remove(ObjectId(9)).is_none());
    pack.clear();
    assert!(pack.is_empty());
}

#[test]
fn finding_objects() {
    let pack = sample();
    assert_eq!(pack.find_id_at(5, 6), Some(ObjectId(2)));
    assert_eq!(pack.find_id_at(1, 1), None);
    assert_eq!(pack.find_object_at(3, 4).map(|o| o.what_is), Some(ObjectWhat::Gold));
    assert_eq!(pack.find_id(|o| o.what_is == ObjectWhat::Potion), Some(ObjectId(3)));
    assert_eq!(pack.find_object(|o| o.what_is == ObjectWhat::Food).map(|o| o.id), None);
    assert!(pack.check_object(ObjectId(1), |o| o.what_is == ObjectWhat::Gold));
    assert!(!pack.check_object(ObjectId(7), |_| true));
    assert_eq!(pack.try_map_object(ObjectId(2), |o| Some(o.spot.row)), Some(5));
    assert_eq!(pack.object_if_what(ObjectId(2), ObjectWhat::Scroll).map(|o| o.id), Some(ObjectId(2)));
    assert!(pack.object_if_what(ObjectId(2), ObjectWhat::Potion).is_none());
    assert!(pack.object_if(ObjectId(3), |o| o.spot.col == 6).is_some());
    assert_eq!(pack.object_ids_when(|o| o.spot.row == 5), vec![ObjectId(2), ObjectId(3)]);
    assert_eq!(pack.objects().len(), 3);
}

#[test]
fn changing_objects_in_place() {
    let mut pack = sample();
    if let Some(obj) = pack.object_mut(ObjectId(1)) {
        obj.quantity = 40;
    }
    assert_eq!(pack.object(ObjectId(1)).map(|o| o.quantity), Some(40));
    if let Some(obj) = pack.find_object_mut(|o| o.what_is == ObjectWhat::Scroll) {
        obj.quantity = 2;
    }
    assert_eq!(pack.object(ObjectId(2)).map(|o| o.quantity), Some(2));
    assert!(pack.object_if_what_mut(ObjectId(3), ObjectWhat::Gold).is_none());
    if let Some(obj) = pack.object_if_mut(ObjectId(3), |o| o.what_is == ObjectWhat::Potion) {
        obj.quantity = 5;
    }
    pack.object_at_index_mut(0).quantity = 1;
    assert_eq!(pack.object(ObjectId(3)).map(|o| o.quantity), Some(5));
    assert_eq!(pack.object(ObjectId(1)).map(|o| o.quantity), Some(1));
}
