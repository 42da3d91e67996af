use mmo::entities::{contains_id, dangling_ids};
use mmo::ids::{PlayerIds, SessionIds};
use mmo::legacy::{self, Outcome, Request};
use mmo::sessions::SessionTable;
use mmo::store::{collection_pattern_of, next_id_step, record_key_of, CounterError};

#[test]
fn keys_and_patterns() {
    assert_eq!(record_key_of("player", "12"), "player:12");
    assert_eq!(record_key_of("next_key", "player"), "next_key:player");
    assert_eq!(collection_pattern_of("player"), "player:*");
}

#[test]
fn counter_steps() {
    let first = next_id_step(&None).unwrap();
    assert_eq!((first.id.as_str(), first.stored.as_str()), ("1", "2"));
    let next = next_id_step(&Some(first.stored)).unwrap();
    assert_eq!((next.id.as_str(), next.stored.as_str()), ("2", "3"));
    let padded = next_id_step(&Some("007".to_string())).unwrap();
    assert_eq!((padded.id.as_str(), padded.stored.as_str()), ("7", "8"));
    assert_eq!(next_id_step(&Some("x".to_string())).err(), Some(CounterError::Unreadable));
    assert_eq!(next_id_step(&Some("-1".to_string())).err(), Some(CounterError::Unreadable));
    assert_eq!(next_id_step(&Some("4294967295".to_string())).err(), Some(CounterError::Exhausted));
    assert_eq!(next_id_step(&Some("4294967296".to_string())).err(), Some(CounterError::Unreadable));
}

#[test]
fn id_counters() {
    let mut s = SessionIds::new();
    assert_eq!(s.next_session_id(), 1);
    assert_eq!(s.next_session_id(), 2);
    let mut p = PlayerIds::new();
    assert_eq!(p.get_next_id(), 1);
    assert_eq!(p.get_next_id(), 2);
    assert_eq!(p.next_id, 3);
}

#[test]
fn session_table_tracks_peers() {
    let mut table = SessionTable::new();
    let a = "10.0.0.1:5".to_string();
    let b = "10.0.0.2:5".to_string();
    let s = table.manage_session(&a, 100);
    assert_eq!((s.peer.as_str(), s.player_id.clone(), s.last_active), (a.as_str(), None, 100));
    table.set_session_player_id(&a, Some("7".to_string()), 110);
    let s = table.manage_session(&a, 120);
    assert_eq!((s.player_id.clone(), s.last_active), (Some("7".to_string()), 120));
    assert!(table.get(&b).is_none());
    table.manage_session(&b, 130);
    assert_eq!(table.get(&b).unwrap().player_id, None);
    table.set_session_player_id(&a, None, 140);
    let s = table.get(&a).unwrap();
    assert_eq!((s.player_id, s.last_active), (None, 140));
}

#[test]
fn dangling_entities() {
    let entities = vec!["1".to_string(), "2".to_string(), "3".to_string()];
    let players = vec!["2".to_string(), "4".to_string()];
    assert_eq!(dangling_ids(&entities, &players), vec!["1".to_string(), "3".to_string()]);
    assert_eq!(dangling_ids(&entities, &entities), Vec::<String>::new());
    assert!(contains_id(&players, &"4".to_string()));
    assert!(!contains_id(&players, &"1".to_string()));
}

#[test]
fn legacy_routes_and_replies() {
    let p = legacy::Packet::new_from_str("init", "bob");
    match legacy::route(&p) {
        Request::Join { name } => assert_eq!(name, "bob"),
        _ => panic!(),
    }
    assert!(matches!(legacy::route(&legacy::Packet::new_from_str("ping", "")), Request::Ping));
    assert!(matches!(legacy::route(&legacy::Packet::new_from_str("map", "")), Request::MapData));
    match legacy::route(&legacy::Packet::new_from_str("dir", "{\"x\":1.0,\"y\":0.0}")) {
        Request::Direction { data } => assert_eq!(data, "{\"x\":1.0,\"y\":0.0}"),
        _ => panic!(),
    }
    assert!(matches!(legacy::route(&legacy::Packet::new_from_str("PING", "")), Request::Ignored));
    assert_eq!(legacy::reply(Outcome::Pong), legacy::Packet::new_from_str("pong", "pong"));
    assert_eq!(legacy::reply(Outcome::DirectionSet), legacy::Packet::new_from_str("dir", "dir"));
    assert_eq!(
        legacy::reply(Outcome::Joined { player: "{}".to_string() }),
        legacy::Packet::new("init".to_string(), "{}".to_string())
    );
    assert_eq!(
        legacy::reply(Outcome::MapData { players: "[]".to_string() }),
        legacy::Packet::new_from_str("map", "[]")
    );
}
