use thuai_8_agent_rust::agent::{
    inbound_kind, Agent, ConnectionAPI, InboundEvent, InboundKind, InboundMessage, InboundOutcome,
    PlayerOperate,
};
use thuai_8_agent_rust::codec::SchemaError;
use thuai_8_agent_rust::model::{
    Armor, ArmorKnifeState, BuffKind, EnvironmentInfo, GameStatistics, MoveDirection, Player,
    Position, ScoreBoard, SkillKind, Stage, TurnDirection, Wall, Weapon, FIXED_ONE,
};

fn player(token: &str, x: i64) -> Player {
    Player::new(
        token.to_string(),
        Position::new(x, 0, 0),
        Weapon::new(FIXED_ONE, FIXED_ONE, false, false, 10, 10, 3),
        Armor::new(false, false, 10, 20, 0, ArmorKnifeState::NotOwned),
        vec![],
    )
}

#[test]
fn request_move_frame_is_exact() {
    let mut agent = Agent::new("abc".to_string());
    agent.send_perform_move(MoveDirection::Forth, 3_500_000_000);
    assert_eq!(
        agent.take_frames(),
        vec![r#"{"messageType":"PERFORM_MOVE","token":"abc","direction":"FORTH","distance":3.5}"#.to_string()]
    );
    assert!(agent.take_frames().is_empty());
}

#[test]
fn player_info_request_asks_for_both_players() {
    let mut agent = Agent::new("abc".to_string());
    agent.send_get_player_info();
    assert_eq!(
        agent.take_frames(),
        vec![
            r#"{"messageType":"GET_PLAYER_INFO","token":"abc","request":"OPPONENT"}"#.to_string(),
            r#"{"messageType":"GET_PLAYER_INFO","token":"abc","request":"SELF"}"#.to_string(),
        ]
    );
}

#[test]
fn actions_queue_their_commands_in_order() {
    let mut agent = Agent::new("t".to_string());
    assert_eq!(agent.token(), "t");
    agent.move_forward(FIXED_ONE);
    agent.move_backward(FIXED_ONE / 2);
    agent.turn_clockwise(30);
    agent.turn_counter_clockwise(45);
    agent.attack();
    agent.use_skill(SkillKind::Trap);
    agent.select_buff(BuffKind::Dodge);
    agent.send_get_environment_info();
    agent.send_get_game_statistics();
    agent.send_get_available_buffs();
    assert_eq!(
        agent.take_frames(),
        vec![
            r#"{"messageType":"PERFORM_MOVE","token":"t","direction":"FORTH","distance":1.0}"#,
            r#"{"messageType":"PERFORM_MOVE","token":"t","direction":"BACK","distance":0.5}"#,
            r#"{"messageType":"PERFORM_TURN","token":"t","direction":"CLOCKWISE","angle":30}"#,
            r#"{"messageType":"PERFORM_TURN","token":"t","direction":"COUNTER_CLOCKWISE","angle":45}"#,
            r#"{"messageType":"PERFORM_ATTACK","token":"t"}"#,
            r#"{"messageType":"PERFORM_SKILL","token":"t","skillName":"TRAP"}"#,
            r#"{"messageType":"PERFORM_SELECT","token":"t","buffName":"DODGE"}"#,
            r#"{"messageType":"GET_ENVIRONMENT_INFO","token":"t"}"#,
            r#"{"messageType":"GET_GAME_STATISTICS","token":"t"}"#,
            r#"{"messageType":"GET_AVAILABLE_BUFFS","token":"t"}"#,
        ]
    );
}

#[test]
fn snapshot_is_unknown_before_any_push() {
    let agent = Agent::new("t".to_string());
    assert!(agent.players_info().is_none());
    assert!(agent.game_statistics().is_none());
    assert!(agent.environment_info().is_none());
    assert!(agent.available_buffs().is_none());
}

#[test]
fn player_info_is_replaced_not_merged() {
    let mut agent = Agent::new("t".to_string());
    let first = InboundEvent::Frame(Ok(InboundMessage::PlayersInfo(vec![player("a", 1), player("b", 2)])));
    assert_eq!(agent.on_inbound(first), InboundOutcome::Applied(InboundKind::PlayersInfo));
    let second = InboundEvent::Frame(Ok(InboundMessage::PlayersInfo(vec![player("c", 3)])));
    assert_eq!(agent.on_inbound(second), InboundOutcome::Applied(InboundKind::PlayersInfo));
    assert_eq!(agent.players_info(), Some(&vec![player("c", 3)]));
    assert!(agent.game_statistics().is_none());
}

#[test]
fn each_kind_replaces_its_own_part() {
    let mut agent = Agent::new("t".to_string());
    agent.apply(InboundMessage::GameStatistics(GameStatistics::new(Stage::Rest, 5, 1, ScoreBoard::new(vec![]))));
    agent.apply(InboundMessage::EnvironmentInfo(EnvironmentInfo {
        map_size: 10,
        walls: vec![Wall { x: 1, y: 2, angle: 0 }],
        fences: vec![],
        bullets: vec![],
    }));
    agent.apply(InboundMessage::AvailableBuffs(vec![BuffKind::Laser, BuffKind::Knife]));
    agent.apply(InboundMessage::GameStatistics(GameStatistics::new(Stage::Battle, 4, 2, ScoreBoard::new(vec![]))));
    assert_eq!(agent.game_statistics().unwrap().current_stage, Stage::Battle);
    assert_eq!(agent.game_statistics().unwrap().ticks, 2);
    assert_eq!(agent.environment_info().unwrap().walls, vec![Wall { x: 1, y: 2, angle: 0 }]);
    assert_eq!(agent.available_buffs(), Some(&vec![BuffKind::Laser, BuffKind::Knife]));
    assert!(agent.players_info().is_none());
}

#[test]
fn malformed_frame_is_reported_and_the_loop_goes_on() {
    let mut agent = Agent::new("t".to_string());
    let bad = InboundEvent::Frame(Err(SchemaError::UnknownMessageType));
    let outcome = agent.on_inbound(bad);
    assert_eq!(outcome, InboundOutcome::Rejected(SchemaError::UnknownMessageType));
    assert!(outcome.keeps_reading());
    assert!(agent.players_info().is_none());
    let good = InboundEvent::Frame(Ok(InboundMessage::AvailableBuffs(vec![BuffKind::Flash])));
    let outcome = agent.on_inbound(good);
    assert!(outcome.keeps_reading());
    assert_eq!(agent.available_buffs(), Some(&vec![BuffKind::Flash]));
}

#[test]
fn stream_end_is_distinct_and_stops_the_loop() {
    let mut agent = Agent::new("t".to_string());
    let outcome = agent.on_inbound(InboundEvent::StreamEnd);
    assert_eq!(outcome, InboundOutcome::Closed);
    assert!(!outcome.keeps_reading());
}

#[test]
fn inbound_kinds_follow_their_requests() {
    assert_eq!(inbound_kind("GET_PLAYER_INFO"), Ok(InboundKind::PlayersInfo));
    assert_eq!(inbound_kind("GET_GAME_STATISTICS"), Ok(InboundKind::GameStatistics));
    assert_eq!(inbound_kind("GET_ENVIRONMENT_INFO"), Ok(InboundKind::EnvironmentInfo));
    assert_eq!(inbound_kind("GET_AVAILABLE_BUFFS"), Ok(InboundKind::AvailableBuffs));
    assert_eq!(inbound_kind("PERFORM_MOVE"), Err(SchemaError::UnknownMessageType));
    assert_eq!(inbound_kind(""), Err(SchemaError::UnknownMessageType));
}

#[test]
fn turns_and_moves_keep_their_directions() {
    let mut agent = Agent::new("z".to_string());
    agent.send_perform_turn(TurnDirection::Clockwise, 0);
    agent.send_perform_attack();
    agent.send_perform_skill(SkillKind::SpeedUp);
    agent.send_perform_select(BuffKind::Reflect);
    let frames = agent.take_frames();
    assert_eq!(frames.len(), 4);
    assert!(frames[0].contains(r#""angle":0"#));
    assert!(frames[2].contains("SPEED_UP"));
    assert!(frames[3].contains("REFLECT"));
}
