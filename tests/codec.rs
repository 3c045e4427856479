use thuai_8_agent_rust::codec::{decode, encode, PerformMessage, SchemaError};
use thuai_8_agent_rust::model::{BuffKind, MoveDirection, RequestType, SkillKind, TurnDirection};

fn round_trip(msg: PerformMessage) {
    let frame = encode(&msg);
    let back = decode(&frame).unwrap();
    assert_eq!(encode(&back), frame);
    assert_eq!(back, msg);
}

#[test]
fn perform_skill_serialize() {
    let msg = PerformMessage::PerformSkill {
        token: "1919810".to_string(),
        skill_name: SkillKind::Flash,
    };

    let serialized = encode(&msg);

    assert_eq!(
        serialized,
        r#"{"messageType":"PERFORM_SKILL","token":"1919810","skillName":"FLASH"}"#
    );
}

#[test]
fn get_player_info_serialize() {
    let msg = PerformMessage::GetPlayerInfo {
        token: "1919810".to_string(),
        request: RequestType::TheSelf,
    };

    let serialized = encode(&msg);

    assert_eq!(
        serialized,
        r#"{"messageType":"GET_PLAYER_INFO","token":"1919810","request":"SELF"}"#
    )
}

#[test]
fn every_kind_encodes_to_its_table_entry() {
    let t = || "t".to_string();
    let cases = vec![
        (
            PerformMessage::PerformMove { token: t(), direction: MoveDirection::Back, distance: 2_000_000_000 },
            r#"{"messageType":"PERFORM_MOVE","token":"t","direction":"BACK","distance":2.0}"#,
        ),
        (
            PerformMessage::PerformTurn { token: t(), direction: TurnDirection::CounterClockwise, angle: 90 },
            r#"{"messageType":"PERFORM_TURN","token":"t","direction":"COUNTER_CLOCKWISE","angle":90}"#,
        ),
        (
            PerformMessage::PerformAttack { token: t() },
            r#"{"messageType":"PERFORM_ATTACK","token":"t"}"#,
        ),
        (
            PerformMessage::PerformSelect { token: t(), buff_name: BuffKind::BlackOut },
            r#"{"messageType":"PERFORM_SELECT","token":"t","buffName":"BLACK_OUT"}"#,
        ),
        (
            PerformMessage::GetPlayerInfo { token: t(), request: RequestType::Opponent },
            r#"{"messageType":"GET_PLAYER_INFO","token":"t","request":"OPPONENT"}"#,
        ),
        (
            PerformMessage::GetEnvironmentInfo { token: t() },
            r#"{"messageType":"GET_ENVIRONMENT_INFO","token":"t"}"#,
        ),
        (
            PerformMessage::GetGameStatistics { token: t() },
            r#"{"messageType":"GET_GAME_STATISTICS","token":"t"}"#,
        ),
        (
            PerformMessage::GetAvailableBuffs { token: t() },
            r#"{"messageType":"GET_AVAILABLE_BUFFS","token":"t"}"#,
        ),
    ];
    for (msg, expected) in cases {
        assert_eq!(encode(&msg), expected);
    }
}

#[test]
fn buff_and_skill_tokens_are_upper_snake_case() {
    let frame = |b| encode(&PerformMessage::PerformSelect { token: "x".to_string(), buff_name: b });
    assert!(frame(BuffKind::SpeedUp).ends_with(r#""buffName":"SPEED_UP"}"#));
    assert!(frame(BuffKind::AntiArmor).ends_with(r#""buffName":"ANTI_ARMOR"}"#));
    assert!(frame(BuffKind::BulletCount).ends_with(r#""buffName":"BULLET_COUNT"}"#));
    let skill = encode(&PerformMessage::PerformSkill { token: "x".to_string(), skill_name: SkillKind::Kamui });
    assert!(skill.ends_with(r#""skillName":"KAMUI"}"#));
}

#[test]
fn fixed_point_distances_print_as_decimals() {
    let frame = |d| encode(&PerformMessage::PerformMove { token: "a".to_string(), direction: MoveDirection::Forth, distance: d });
    assert!(frame(3_500_000_000).ends_with(r#""distance":3.5}"#));
    assert!(frame(0).ends_with(r#""distance":0.0}"#));
    assert!(frame(-250_000_000).ends_with(r#""distance":-0.25}"#));
    assert!(frame(1).ends_with(r#""distance":0.000000001}"#));
    assert!(frame(12_000_000_300).ends_with(r#""distance":12.0000003}"#));
    assert!(frame(i64::MIN).ends_with(r#""distance":-9223372036.854775808}"#));
}

#[test]
fn tokens_are_escaped() {
    let msg = PerformMessage::PerformAttack { token: "a\"b\\c\nd".to_string() };
    assert_eq!(
        encode(&msg),
        "{\"messageType\":\"PERFORM_ATTACK\",\"token\":\"a\\\"b\\\\c\\u000ad\"}"
    );
}

#[test]
fn every_kind_decodes_back() {
    let tokens = ["1919810", "", "quote\" back\\ tab\t bell\u{7} é 漢"];
    for tok in tokens {
        let t = || tok.to_string();
        round_trip(PerformMessage::PerformMove { token: t(), direction: MoveDirection::Forth, distance: 3_500_000_000 });
        round_trip(PerformMessage::PerformMove { token: t(), direction: MoveDirection::Back, distance: i64::MIN });
        round_trip(PerformMessage::PerformMove { token: t(), direction: MoveDirection::Back, distance: i64::MAX });
        round_trip(PerformMessage::PerformTurn { token: t(), direction: TurnDirection::Clockwise, angle: 0 });
        round_trip(PerformMessage::PerformTurn { token: t(), direction: TurnDirection::CounterClockwise, angle: u32::MAX });
        round_trip(PerformMessage::PerformAttack { token: t() });
        round_trip(PerformMessage::PerformSkill { token: t(), skill_name: SkillKind::Missile });
        round_trip(PerformMessage::PerformSelect { token: t(), buff_name: BuffKind::Gravity });
        round_trip(PerformMessage::GetPlayerInfo { token: t(), request: RequestType::TheSelf });
        round_trip(PerformMessage::GetEnvironmentInfo { token: t() });
        round_trip(PerformMessage::GetGameStatistics { token: t() });
        round_trip(PerformMessage::GetAvailableBuffs { token: t() });
    }
}

#[test]
fn decode_reads_fields_in_any_order() {
    let msg = decode(r#"{"distance":-1.5,"direction":"BACK","token":"k","messageType":"PERFORM_MOVE","extra":7}"#).unwrap();
    assert_eq!(
        msg,
        PerformMessage::PerformMove { token: "k".to_string(), direction: MoveDirection::Back, distance: -1_500_000_000 }
    );
    let msg = decode(r#"{"messageType":"PERFORM_TURN","token":"A\/","direction":"CLOCKWISE","angle":7}"#).unwrap();
    assert_eq!(msg.token(), "A/");
}

#[test]
fn decode_rejects_malformed_frames() {
    assert_eq!(decode("").unwrap_err(), SchemaError::Malformed);
    assert_eq!(decode("not json").unwrap_err(), SchemaError::Malformed);
    assert_eq!(decode(r#"{"messageType":"PERFORM_ATTACK","token":"a"#).unwrap_err(), SchemaError::Malformed);
    assert_eq!(decode(r#"{ "messageType":"PERFORM_ATTACK","token":"a"}"#).unwrap_err(), SchemaError::Malformed);
    assert_eq!(decode(r#"{"messageType":"PERFORM_ATTACK","token":"a"}x"#).unwrap_err(), SchemaError::Malformed);
}

#[test]
fn decode_rejects_unknown_message_types() {
    assert_eq!(decode(r#"{"messageType":"PERFORM_DANCE","token":"a"}"#).unwrap_err(), SchemaError::UnknownMessageType);
    assert_eq!(decode(r#"{"messageType":"perform_attack","token":"a"}"#).unwrap_err(), SchemaError::UnknownMessageType);
}

#[test]
fn decode_reports_missing_and_invalid_fields() {
    assert_eq!(decode("{}").unwrap_err(), SchemaError::MissingField);
    assert_eq!(decode(r#"{"messageType":"PERFORM_ATTACK"}"#).unwrap_err(), SchemaError::MissingField);
    assert_eq!(decode(r#"{"messageType":"PERFORM_MOVE","token":"a","direction":"FORTH"}"#).unwrap_err(), SchemaError::MissingField);
    assert_eq!(decode(r#"{"messageType":3,"token":"a"}"#).unwrap_err(), SchemaError::InvalidField);
    assert_eq!(decode(r#"{"messageType":"PERFORM_MOVE","token":"a","direction":"UP","distance":1.0}"#).unwrap_err(), SchemaError::InvalidField);
    assert_eq!(decode(r#"{"messageType":"PERFORM_MOVE","token":"a","direction":"FORTH","distance":"1.0"}"#).unwrap_err(), SchemaError::InvalidField);
    assert_eq!(decode(r#"{"messageType":"PERFORM_MOVE","token":"a","direction":"FORTH","distance":1.0000000001}"#).unwrap_err(), SchemaError::InvalidField);
    assert_eq!(decode(r#"{"messageType":"PERFORM_TURN","token":"a","direction":"CLOCKWISE","angle":4294967296}"#).unwrap_err(), SchemaError::InvalidField);
    assert_eq!(decode(r#"{"messageType":"PERFORM_TURN","token":"a","direction":"CLOCKWISE","angle":07}"#).unwrap_err(), SchemaError::InvalidField);
    assert_eq!(decode(r#"{"messageType":"PERFORM_SKILL","token":"a","skillName":"GRAVITY"}"#).unwrap_err(), SchemaError::InvalidField);
}
