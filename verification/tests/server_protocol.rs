use mmo::net;
use mmo::protocol::{
    is_supported, parse_request, player_vec_to_string, reply, support, Outcome, Request, Support,
};
use mmo::session::{
    echo_reply, engine_reply, finish_login, handle_client_packet, login_decision, login_reply,
    pending_step, ClientPacketAction, LoginDecision, PendingStatus,
};
use mmo::sessions::SessionTable;
use mmo::wire::Packet;

fn packet(t: i16, s: i16, p: &str) -> Packet {
    Packet::new(t, s, p.to_string())
}

#[test]
fn requests_by_kind() {
    assert!(matches!(parse_request(&packet(0, 9, "")), Request::Ping));
    match parse_request(&packet(1, 0, "alice;extra")) {
        Request::CreatePlayer { username } => assert_eq!(username, "alice"),
        _ => panic!(),
    }
    assert!(matches!(parse_request(&packet(2, 0, "")), Request::ListPlayers));
    match parse_request(&packet(3, 0, "7;1.5,-1;90;more")) {
        Request::MovementInput { player_id, dir_x, dir_y, rotation } => {
            assert_eq!((player_id.as_str(), dir_x.as_str(), dir_y.as_str(), rotation.as_str()), ("7", "1.5", "-1", "90"));
        }
        _ => panic!(),
    }
    assert!(matches!(parse_request(&packet(2, 1, "")), Request::Ignored));
    assert!(matches!(parse_request(&packet(9, 0, "")), Request::Ignored));
}

#[test]
fn unsupported_requests() {
    assert!(!is_supported(&packet(1, 1, "")));
    assert!(!is_supported(&packet(1, 2, "")));
    assert!(!is_supported(&packet(3, 0, "7;1,0")));
    assert!(!is_supported(&packet(3, 0, "7;1;0")));
    assert!(is_supported(&packet(3, 0, "7;1,0;0")));
    assert!(is_supported(&packet(1, 3, "")));
    assert!(is_supported(&packet(3, 1, "")));
}

#[test]
fn replies_to_requests() {
    assert_eq!(reply(&packet(0, 4, ""), Outcome::Pong, "y"), packet(0, 4, "y"));
    assert_eq!(reply(&packet(0, 0, ""), Outcome::Pong, ""), packet(0, 0, ""));
    assert_eq!(
        reply(&packet(1, 0, "bob"), Outcome::PlayerCreated { player: "3;bob".to_string() }, "y"),
        packet(1, 0, "3;bob")
    );
    assert_eq!(
        reply(&packet(2, 0, ""), Outcome::PlayerList { players: vec!["a".to_string(), "b".to_string()] }, "y"),
        packet(2, 0, "a+b")
    );
    assert_eq!(reply(&packet(3, 0, "x"), Outcome::InputApplied, "y"), packet(3, 0, "y"));
}

#[test]
fn player_list_joins_with_plus() {
    assert_eq!(player_vec_to_string(&vec![]), "");
    assert_eq!(player_vec_to_string(&vec!["1;a".to_string()]), "1;a");
    let players = vec!["1;a".to_string(), "2;b".to_string(), "3;c".to_string()];
    let text = player_vec_to_string(&players);
    assert_eq!(text.split('+').collect::<Vec<_>>(), players);
}

#[test]
fn session_packets() {
    let ping = net::Packet::new("9".to_string(), 0, 0, Some(vec![1]));
    match handle_client_packet(&ping) {
        ClientPacketAction::Reply(p) => assert_eq!(p, net::Packet::new("9".to_string(), 0, 0, None)),
        _ => panic!(),
    }
    let create = net::Packet::new("10".to_string(), 2, 1, Some(vec![4, 5]));
    match handle_client_packet(&create) {
        ClientPacketAction::CreateCharacter { packet_id, payload } => {
            assert_eq!(packet_id, "10");
            assert_eq!(payload, Some(vec![4, 5]));
        }
        _ => panic!(),
    }
    assert!(matches!(handle_client_packet(&net::Packet::new("1".to_string(), 2, 0, None)), ClientPacketAction::Ignore));
    assert!(matches!(handle_client_packet(&net::Packet::new("1".to_string(), 2, 2, None)), ClientPacketAction::Ignore));
    assert!(matches!(handle_client_packet(&net::Packet::new("1".to_string(), 0, 1, None)), ClientPacketAction::Ignore));
}

#[test]
fn respond_to_keeps_id() {
    let req = net::Packet::new("42".to_string(), 1, 0, None);
    assert_eq!(net::Packet::respond_to(&req, true, None), net::Packet::new("42".to_string(), 2, 0, None));
    assert_eq!(
        net::Packet::respond_to(&req, false, Some(vec![7])),
        net::Packet::new("42".to_string(), 2, -1, Some(vec![7]))
    );
}

#[test]
fn pending_commands() {
    let id = "5".to_string();
    let step = pending_step(&id, PendingStatus::Ready(Ok(Some(vec![1]))));
    assert!(!step.keep);
    assert_eq!(step.reply, Some(net::Packet::new("5".to_string(), 2, 0, None)));
    let step = pending_step(&id, PendingStatus::Ready(Err(-3)));
    assert!(!step.keep);
    assert_eq!(step.reply, Some(net::Packet::new("5".to_string(), 2, -1, Some(bitcode::encode(&-3i16)))));
    assert_eq!(step.reply.unwrap().payload, Some(vec![0xfd, 0xff]));
    let step = pending_step(&id, PendingStatus::Waiting);
    assert!(step.keep && step.reply.is_none());
    let step = pending_step(&id, PendingStatus::Closed);
    assert!(!step.keep && step.reply.is_none());
}

#[test]
fn engine_login_and_echo_replies() {
    assert_eq!(engine_reply(&packet(3, 0, "x"), true), packet(3, 0, "y"));
    assert_eq!(engine_reply(&packet(3, 0, "x"), false), packet(3, 0, "n"));
    assert_eq!(login_reply("1;bob".to_string()), packet(1, 0, "1;bob"));
    assert_eq!(echo_reply(&packet(2, 4, "q"), "data".to_string()), packet(2, 4, "data"));
}

#[test]
fn support_names_the_stop() {
    assert_eq!(support(&packet(1, 1, "")), Support::Login);
    assert_eq!(support(&packet(1, 2, "")), Support::Logout);
    assert_eq!(support(&packet(3, 0, "1;2")), Support::MalformedInput);
    assert_eq!(support(&packet(3, 0, "1;2,3;4")), Support::Supported);
    assert_eq!(support(&packet(0, 0, "")), Support::Supported);
}

#[test]
fn login_decisions() {
    let some = Some("4".to_string());
    match login_decision(&some, Some("4;bob".to_string())) {
        LoginDecision::ReplyStored(record) => assert_eq!(record, "4;bob"),
        _ => panic!(),
    }
    assert!(matches!(login_decision(&some, None), LoginDecision::ClearThenCreate));
    assert!(matches!(login_decision(&None, None), LoginDecision::Create));
    assert!(matches!(login_decision(&None, Some("4;bob".to_string())), LoginDecision::Create));
}

#[test]
fn finish_login_binds_the_peer() {
    let mut table = SessionTable::new();
    let peer = "10.0.0.3:7".to_string();
    table.manage_session(&peer, 5);
    let answer = finish_login(&mut table, &peer, "8".to_string(), "8;eve".to_string(), 9);
    assert_eq!(answer, packet(1, 0, "8;eve"));
    let s = table.get(&peer).unwrap();
    assert_eq!((s.player_id, s.last_active), (Some("8".to_string()), 9));
}
