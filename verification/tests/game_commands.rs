use mmo::codec::{decode_text, encode_i16, encode_text, MalformedBytes};
use mmo::command::{
    received_or_failed, Action, ActionType, CommandDecision, CommandHandlerClient, CommandRequest,
    CommandResponse, CreateCharacterError, GameManager, COMMAND_FAILED, CREATE_CHARACTER,
};

fn create_request(name: &str) -> CommandRequest {
    CommandRequest {
        issuer: None,
        packet_id: "7".to_string(),
        cmd_type: CREATE_CHARACTER,
        arguments: Some(bitcode::encode(&name.to_string())),
    }
}

#[test]
fn command_response_constructors() {
    assert_eq!(CommandResponse::new(Ok(Some(vec![1, 2]))).response, Ok(Some(vec![1, 2])));
    assert_eq!(CommandResponse::new(Ok(None)).response, Ok(None));
    assert_eq!(CommandResponse::new_err(-4).response, Err(-4));
}

#[test]
fn action_new_keeps_its_parts() {
    let a = Action::new("p1".to_string(), ActionType::SetBearing, vec![9]);
    assert_eq!(a.player_id, "p1");
    assert_eq!(a.action_type, ActionType::SetBearing);
    assert_eq!(a.args, vec![9]);
    assert_eq!(Action::new(String::new(), ActionType::NoAction, vec![]).action_type, ActionType::NoAction);
}

#[test]
fn codec_matches_bitcode() {
    let name = "TestPlayer".to_string();
    assert_eq!(encode_text(&name), bitcode::encode(&name));
    assert_eq!(decode_text(&bitcode::encode(&name)), Ok(name));
    assert_eq!(encode_i16(-1), bitcode::encode(&-1i16));
    assert_eq!(encode_i16(-1), vec![0xff, 0xff]);
    assert_eq!(encode_i16(0x0102), vec![0x02, 0x01]);
    assert_eq!(encode_i16(i16::MIN), vec![0x00, 0x80]);
    assert_eq!(decode_text(&[0xff, 0xff, 0xff]), Err(MalformedBytes));
}

#[test]
fn game_manager_hands_out_ids_from_one() {
    let mut gm = GameManager::new();
    assert_eq!(gm.next_id(), "1");
    assert_eq!(gm.next_id(), "2");
    assert_eq!(gm.rolling_id, 3);
}

#[test]
fn create_character_command_adds_player() {
    let mut gm = GameManager::new();
    match gm.process_command(&create_request("NoobMaster")) {
        CommandDecision::CreatePlayer { player_id, username, reply } => {
            assert_eq!(player_id, "1");
            assert_eq!(username, "NoobMaster");
            assert_eq!(reply.response, Ok(Some(bitcode::encode(&"1".to_string()))));
            assert_eq!(CommandHandlerClient::create_character_result(&reply), Ok("1".to_string()));
        }
        _ => panic!("expected a new player"),
    }
    match gm.process_command(&create_request("TheLegend27")) {
        CommandDecision::CreatePlayer { player_id, .. } => assert_eq!(player_id, "2"),
        _ => panic!("expected a new player"),
    }
}

#[test]
fn other_commands_are_rejected() {
    let mut gm = GameManager::new();
    let mut cmd = create_request("x");
    cmd.cmd_type = 4;
    match gm.process_command(&cmd) {
        CommandDecision::Reject { reply } => assert_eq!(reply.response, Err(COMMAND_FAILED)),
        _ => panic!("expected a rejection"),
    }
    cmd.cmd_type = CREATE_CHARACTER;
    cmd.arguments = None;
    match gm.process_command(&cmd) {
        CommandDecision::Reject { reply } => assert_eq!(reply.response, Err(-1)),
        _ => panic!("expected a rejection"),
    }
    assert_eq!(gm.rolling_id, 1);
}

#[test]
fn malformed_username_is_reported() {
    let mut gm = GameManager::new();
    let mut cmd = create_request("x");
    cmd.arguments = Some(vec![0xff, 0xff, 0xff, 0xff]);
    assert!(matches!(gm.process_command(&cmd), CommandDecision::MalformedUsername));
    assert_eq!(gm.rolling_id, 1);
}

#[test]
fn command_client_asks_once() {
    let mut client = CommandHandlerClient::new();
    let cmd = client.create_character_command(&"12".to_string(), Some(vec![3])).unwrap();
    assert_eq!(cmd.issuer, None);
    assert_eq!(cmd.packet_id, "12");
    assert_eq!(cmd.cmd_type, 0);
    assert_eq!(cmd.arguments, Some(vec![3]));
    client.set_player_id(&"5".to_string());
    assert_eq!(client.player_id, Some("5".to_string()));
    assert!(client.create_character_command(&"13".to_string(), None).is_none());
}

#[test]
fn create_character_result_errors() {
    let r = CommandHandlerClient::create_character_result(&CommandResponse::new_err(-1));
    assert_eq!(r, Err(CreateCharacterError::Rejected(-1)));
    let r = CommandHandlerClient::create_character_result(&CommandResponse::new(Ok(None)));
    assert_eq!(r, Err(CreateCharacterError::MissingPlayerId));
    let r = CommandHandlerClient::create_character_result(&CommandResponse::new(Ok(Some(vec![0xff; 4]))));
    assert_eq!(r, Err(CreateCharacterError::UndecodablePlayerId));
}

#[test]
fn broken_channel_is_a_failure() {
    assert_eq!(received_or_failed(None).response, Err(-1));
    assert_eq!(received_or_failed(Some(CommandResponse::new(Ok(None)))).response, Ok(None));
}

#[test]
fn player_is_recorded_once() {
    let mut client = CommandHandlerClient::new();
    assert!(!client.record_created(&None));
    assert_eq!(client.player_id, None);
    assert!(client.record_created(&Some("3".to_string())));
    assert_eq!(client.player_id, Some("3".to_string()));
    assert!(!client.record_created(&Some("4".to_string())));
    assert_eq!(client.player_id, Some("3".to_string()));
    assert!(client.create_character_command(&"1".to_string(), None).is_none());
}
