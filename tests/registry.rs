use room_relay::rooms::{CreateRoom, Room, RoomError, RoomId, RoomName, RoomTable, RoomsDb};
use room_relay::topic::{Delivery, Topic};

fn create(db: &RoomsDb, name: &str) -> Room {
    db.create_room(CreateRoom::new(RoomName::new(name.to_string()))).unwrap()
}

#[test]
fn create_returns_named_room_with_uuid_id() {
    let db = RoomsDb::new();
    let room = create(&db, "general");
    assert_eq!(room.get_room_name().as_str(), "general");
    assert_eq!(room.get_room_id().as_str().len(), 36);
    let found = db.get_room(room.get_room_id()).unwrap();
    assert_eq!(found.get_room_id().as_str(), room.get_room_id().as_str());
    assert_eq!(found.get_room_name().as_str(), "general");
}

#[test]
fn get_unknown_room_is_not_found() {
    let db = RoomsDb::new();
    let r = db.get_room(&RoomId::new("no-such-room".to_string()));
    assert!(matches!(r, Err(RoomError::NotFound)));
}

#[test]
fn delete_then_get_is_not_found() {
    let db = RoomsDb::new();
    let room = create(&db, "general");
    let id = room.get_room_id().clone();
    assert_eq!(db.delete_room(id.clone()), Ok(()));
    assert!(matches!(db.get_room(&id), Err(RoomError::NotFound)));
    assert_eq!(db.delete_room(id), Err(RoomError::NotFound));
}

#[test]
fn list_holds_each_room_once() {
    let db = RoomsDb::new();
    assert_eq!(db.get_all_room_info().unwrap().len(), 0);
    let a = create(&db, "a");
    let b = create(&db, "b");
    let c = create(&db, "a");
    db.delete_room(b.get_room_id().clone()).unwrap();
    let infos = db.get_all_room_info().unwrap();
    let ids: Vec<&str> = infos.iter().map(|i| i.get_room_id().as_str()).collect();
    assert_eq!(ids, vec![a.get_room_id().as_str(), c.get_room_id().as_str()]);
    assert_eq!(infos[0].get_room_name().as_str(), "a");
    assert_eq!(infos[1].get_room_name().as_str(), "a");
}

#[test]
fn thousand_creates_yield_distinct_ids() {
    let db = RoomsDb::new();
    let mut ids = std::collections::HashSet::new();
    for i in 0..1000 {
        let room = create(&db, &format!("room{}", i));
        assert!(ids.insert(room.get_room_id().as_str().to_string()));
    }
    assert_eq!(db.get_all_room_info().unwrap().len(), 1000);
}

#[test]
fn table_refuses_taken_id() {
    let mut table = RoomTable::new();
    let id = RoomId::new("r1".to_string());
    let first = Room::from_parts(id.clone(), RoomName::new("one".to_string()), Topic::new(4));
    let second = Room::from_parts(id.clone(), RoomName::new("two".to_string()), Topic::new(4));
    assert_eq!(table.insert_room(first), Ok(()));
    assert_eq!(table.insert_room(second), Err(RoomError::IdTaken));
    assert_eq!(table.get_room(&id).unwrap().get_room_name().as_str(), "one");
    assert_eq!(table.room_infos().len(), 1);
}

#[test]
fn table_history_of_creates_and_deletes() {
    let mut table = RoomTable::new();
    let r1 = RoomId::new("r1".to_string());
    let r2 = RoomId::new("r2".to_string());
    let mk = |id: &RoomId, name: &str| Room::from_parts(id.clone(), RoomName::new(name.to_string()), Topic::new(2));
    table.insert_room(mk(&r1, "x")).unwrap();
    table.insert_room(mk(&r2, "y")).unwrap();
    assert_eq!(table.remove_room(&r1).unwrap().get_room_name().as_str(), "x");
    assert!(matches!(table.get_room(&r1), Err(RoomError::NotFound)));
    assert_eq!(table.get_room(&r2).unwrap().get_room_name().as_str(), "y");
    table.insert_room(mk(&r1, "z")).unwrap();
    assert_eq!(table.get_room(&r1).unwrap().get_room_name().as_str(), "z");
    assert!(matches!(table.remove_room(&RoomId::new("r3".to_string())), Err(RoomError::NotFound)));
}

#[test]
fn scenario_general_room_first_message_discarded_then_delivered() {
    let db = RoomsDb::new();
    let room = create(&db, "general");
    let topic = db.get_room(room.get_room_id()).unwrap().get_sender();
    assert_eq!(topic.get_capacity(), 128);
    assert_eq!(topic.publish("alice: hi".to_string()), 0);
    let mut bob = topic.subscribe();
    assert_eq!(topic.publish("alice: yo".to_string()), 1);
    match bob.try_receive() {
        Delivery::Message(m) => assert_eq!(m, "alice: yo"),
        _ => panic!("bob should receive the message"),
    }
    assert!(matches!(bob.try_receive(), Delivery::Empty));
}

#[test]
fn scenario_delete_while_subscribed_keeps_topic() {
    let db = RoomsDb::new();
    let room = create(&db, "general");
    let id = room.get_room_id().clone();
    let topic = db.get_room(&id).unwrap().get_sender();
    let mut bob = topic.subscribe();
    db.delete_room(id.clone()).unwrap();
    drop(room);
    assert!(matches!(db.get_room(&id), Err(RoomError::NotFound)));
    assert_eq!(topic.publish("still here".to_string()), 1);
    match bob.try_receive() {
        Delivery::Message(m) => assert_eq!(m, "still here"),
        _ => panic!("bob's topic should still work"),
    }
}
