//! The outbound commands and their frames.
//!
//! A frame is a flat JSON object whose `messageType` field names the command,
//! followed by `token` and the command's own fields, in a fixed order:
//! `{"messageType":"PERFORM_MOVE","token":"abc","direction":"FORTH","distance":3.5}`.
//! Enumerations travel as fixed upper-snake-case tokens.
use vstd::prelude::*;
use crate::model::{skill_buff, BuffKind, MoveDirection, RequestType, SkillKind, TurnDirection};
use crate::number::{
    digits_of, fixed_text, fixed_text_exec, is_digit, lemma_digits_of, lemma_fixed_round_trip,
    lemma_padded, lemma_pow10_values, lemma_trimmed, lemma_u32_round_trip, padded, parse_fixed,
    parse_fixed_exec, parse_u32, parse_u32_exec, trimmed, u32_text, abs,
};
use crate::text::{chars_eq, chars_of, push_chars, string_of_chars};
use crate::wire::{
    fields_view, fields_wf, field_wf, is_number_char, lemma_parse_object, parse_object,
    parse_object_exec, render_object, render_object_exec, scalar_wf, Field, Scalar, WireField,
    WireScalar,
};

verus! {

/// A command to the server. Every command carries the agent's token.
#[derive(Debug, PartialEq)]
pub enum PerformMessage {
    PerformMove { token: String, direction: MoveDirection, distance: i64 },
    PerformTurn { token: String, direction: TurnDirection, angle: u32 },
    PerformAttack { token: String },
    PerformSkill { token: String, skill_name: SkillKind },
    PerformSelect { token: String, buff_name: BuffKind },
    GetPlayerInfo { token: String, request: RequestType },
    GetEnvironmentInfo { token: String },
    GetGameStatistics { token: String },
    GetAvailableBuffs { token: String },
}

/// A command as a mathematical value: the token as its characters.
pub enum Command {
    PerformMove { token: Seq<char>, direction: MoveDirection, distance: i64 },
    PerformTurn { token: Seq<char>, direction: TurnDirection, angle: u32 },
    PerformAttack { token: Seq<char> },
    PerformSkill { token: Seq<char>, skill_name: SkillKind },
    PerformSelect { token: Seq<char>, buff_name: BuffKind },
    GetPlayerInfo { token: Seq<char>, request: RequestType },
    GetEnvironmentInfo { token: Seq<char> },
    GetGameStatistics { token: Seq<char> },
    GetAvailableBuffs { token: Seq<char> },
}

impl View for PerformMessage {
    type V = Command;

    open spec fn view(&self) -> Command {
        match self {
            PerformMessage::PerformMove { token, direction, distance } => Command::PerformMove {
                token: token@,
                direction: *direction,
                distance: *distance,
            },
            PerformMessage::PerformTurn { token, direction, angle } => Command::PerformTurn {
                token: token@,
                direction: *direction,
                angle: *angle,
            },
            PerformMessage::PerformAttack { token } => Command::PerformAttack { token: token@ },
            PerformMessage::PerformSkill { token, skill_name } => Command::PerformSkill {
                token: token@,
                skill_name: *skill_name,
            },
            PerformMessage::PerformSelect { token, buff_name } => Command::PerformSelect {
                token: token@,
                buff_name: *buff_name,
            },
            PerformMessage::GetPlayerInfo { token, request } => Command::GetPlayerInfo {
                token: token@,
                request: *request,
            },
            PerformMessage::GetEnvironmentInfo { token } => Command::GetEnvironmentInfo {
                token: token@,
            },
            PerformMessage::GetGameStatistics { token } => Command::GetGameStatistics {
                token: token@,
            },
            PerformMessage::GetAvailableBuffs { token } => Command::GetAvailableBuffs {
                token: token@,
            },
        }
    }
}

impl Command {
    pub open spec fn token(self) -> Seq<char> {
        match self {
            Command::PerformMove { token, .. } => token,
            Command::PerformTurn { token, .. } => token,
            Command::PerformAttack { token } => token,
            Command::PerformSkill { token, .. } => token,
            Command::PerformSelect { token, .. } => token,
            Command::GetPlayerInfo { token, .. } => token,
            Command::GetEnvironmentInfo { token } => token,
            Command::GetGameStatistics { token } => token,
            Command::GetAvailableBuffs { token } => token,
        }
    }

    /// The `messageType` of the command.
    pub open spec fn kind(self) -> Seq<char> {
        match self {
            Command::PerformMove { .. } => "PERFORM_MOVE"@,
            Command::PerformTurn { .. } => "PERFORM_TURN"@,
            Command::PerformAttack { .. } => "PERFORM_ATTACK"@,
            Command::PerformSkill { .. } => "PERFORM_SKILL"@,
            Command::PerformSelect { .. } => "PERFORM_SELECT"@,
            Command::GetPlayerInfo { .. } => "GET_PLAYER_INFO"@,
            Command::GetEnvironmentInfo { .. } => "GET_ENVIRONMENT_INFO"@,
            Command::GetGameStatistics { .. } => "GET_GAME_STATISTICS"@,
            Command::GetAvailableBuffs { .. } => "GET_AVAILABLE_BUFFS"@,
        }
    }
}

/// Why a frame is not a command.
#[derive(Debug, Clone, Copy, PartialEq, Eq, Structural)]
pub enum SchemaError {
    /// Not a flat object of string and number fields.
    Malformed,
    /// `messageType` names no command.
    UnknownMessageType,
    /// A field the command needs is absent.
    MissingField,
    /// A field holds a value of the wrong kind, an unknown token or a number
    /// out of range.
    InvalidField,
}

/// Wire token of a move direction.
pub open spec fn move_token(v: MoveDirection) -> Seq<char> {
    match v {
        MoveDirection::Back => "BACK"@,
        MoveDirection::Forth => "FORTH"@,
    }
}

/// The MoveDirection a wire token stands for.
pub open spec fn move_of_token(t: Seq<char>) -> Option<MoveDirection> {
    if t == "BACK"@ {
        Some(MoveDirection::Back)
    } else if t == "FORTH"@ {
        Some(MoveDirection::Forth)
    } else {
        None
    }
}

fn move_token_str(v: MoveDirection) -> (r: &'static str)
    ensures
        r@ == move_token(v),
{
    match v {
        MoveDirection::Back => "BACK",
        MoveDirection::Forth => "FORTH",
    }
}

fn move_of_chars(t: &Vec<char>) -> (r: Option<MoveDirection>)
    ensures
        r == move_of_token(t@),
{
    if chars_eq(t, "BACK") {
        Some(MoveDirection::Back)
    } else if chars_eq(t, "FORTH") {
        Some(MoveDirection::Forth)
    } else {
        None
    }
}

/// Each MoveDirection reads back from its token.
pub proof fn lemma_move_token(v: MoveDirection)
    ensures
        move_of_token(move_token(v)) == Some(v),
{
    reveal_strlit("BACK");
    reveal_strlit("FORTH");
    assert("BACK"@.len() == 4);
    assert("FORTH"@.len() == 5);
}

/// Wire token of a turn direction.
pub open spec fn turn_token(v: TurnDirection) -> Seq<char> {
    match v {
        TurnDirection::Clockwise => "CLOCKWISE"@,
        TurnDirection::CounterClockwise => "COUNTER_CLOCKWISE"@,
    }
}

/// The TurnDirection a wire token stands for.
pub open spec fn turn_of_token(t: Seq<char>) -> Option<TurnDirection> {
    if t == "CLOCKWISE"@ {
        Some(TurnDirection::Clockwise)
    } else if t == "COUNTER_CLOCKWISE"@ {
        Some(TurnDirection::CounterClockwise)
    } else {
        None
    }
}

fn turn_token_str(v: TurnDirection) -> (r: &'static str)
    ensures
        r@ == turn_token(v),
{
    match v {
        TurnDirection::Clockwise => "CLOCKWISE",
        TurnDirection::CounterClockwise => "COUNTER_CLOCKWISE",
    }
}

fn turn_of_chars(t: &Vec<char>) -> (r: Option<TurnDirection>)
    ensures
        r == turn_of_token(t@),
{
    if chars_eq(t, "CLOCKWISE") {
        Some(TurnDirection::Clockwise)
    } else if chars_eq(t, "COUNTER_CLOCKWISE") {
        Some(TurnDirection::CounterClockwise)
    } else {
        None
    }
}

/// Each TurnDirection reads back from its token.
pub proof fn lemma_turn_token(v: TurnDirection)
    ensures
        turn_of_token(turn_token(v)) == Some(v),
{
    reveal_strlit("CLOCKWISE");
    reveal_strlit("COUNTER_CLOCKWISE");
    assert("CLOCKWISE"@.len() == 9);
    assert("COUNTER_CLOCKWISE"@.len() == 17);
}

/// Wire token of a player-info request.
pub open spec fn request_token(v: RequestType) -> Seq<char> {
    match v {
        RequestType::TheSelf => "SELF"@,
        RequestType::Opponent => "OPPONENT"@,
    }
}

/// The RequestType a wire token stands for.
pub open spec fn request_of_token(t: Seq<char>) -> Option<RequestType> {
    if t == "SELF"@ {
        Some(RequestType::TheSelf)
    } else if t == "OPPONENT"@ {
        Some(RequestType::Opponent)
    } else {
        None
    }
}

fn request_token_str(v: RequestType) -> (r: &'static str)
    ensures
        r@ == request_token(v),
{
    match v {
        RequestType::TheSelf => "SELF",
        RequestType::Opponent => "OPPONENT",
    }
}

fn request_of_chars(t: &Vec<char>) -> (r: Option<RequestType>)
    ensures
        r == request_of_token(t@),
{
    if chars_eq(t, "SELF") {
        Some(RequestType::TheSelf)
    } else if chars_eq(t, "OPPONENT") {
        Some(RequestType::Opponent)
    } else {
        None
    }
}

/// Each RequestType reads back from its token.
pub proof fn lemma_request_token(v: RequestType)
    ensures
        request_of_token(request_token(v)) == Some(v),
{
    reveal_strlit("SELF");
    reveal_strlit("OPPONENT");
    assert("SELF"@.len() == 4);
    assert("OPPONENT"@.len() == 8);
}

/// Wire token of a skill.
pub open spec fn skill_token(v: SkillKind) -> Seq<char> {
    match v {
        SkillKind::BlackOut => "BLACK_OUT"@,
        SkillKind::SpeedUp => "SPEED_UP"@,
        SkillKind::Flash => "FLASH"@,
        SkillKind::Destroy => "DESTROY"@,
        SkillKind::Construct => "CONSTRUCT"@,
        SkillKind::Trap => "TRAP"@,
        SkillKind::Missile => "MISSILE"@,
        SkillKind::Kamui => "KAMUI"@,
    }
}

/// The SkillKind a wire token stands for.
pub open spec fn skill_of_token(t: Seq<char>) -> Option<SkillKind> {
    if t == "BLACK_OUT"@ {
        Some(SkillKind::BlackOut)
    } else if t == "SPEED_UP"@ {
        Some(SkillKind::SpeedUp)
    } else if t == "FLASH"@ {
        Some(SkillKind::Flash)
    } else if t == "DESTROY"@ {
        Some(SkillKind::Destroy)
    } else if t == "CONSTRUCT"@ {
        Some(SkillKind::Construct)
    } else if t == "TRAP"@ {
        Some(SkillKind::Trap)
    } else if t == "MISSILE"@ {
        Some(SkillKind::Missile)
    } else if t == "KAMUI"@ {
        Some(SkillKind::Kamui)
    } else {
        None
    }
}

fn skill_token_str(v: SkillKind) -> (r: &'static str)
    ensures
        r@ == skill_token(v),
{
    match v {
        SkillKind::BlackOut => "BLACK_OUT",
        SkillKind::SpeedUp => "SPEED_UP",
        SkillKind::Flash => "FLASH",
        SkillKind::Destroy => "DESTROY",
        SkillKind::Construct => "CONSTRUCT",
        SkillKind::Trap => "TRAP",
        SkillKind::Missile => "MISSILE",
        SkillKind::Kamui => "KAMUI",
    }
}

fn skill_of_chars(t: &Vec<char>) -> (r: Option<SkillKind>)
    ensures
        r == skill_of_token(t@),
{
    if chars_eq(t, "BLACK_OUT") {
        Some(SkillKind::BlackOut)
    } else if chars_eq(t, "SPEED_UP") {
        Some(SkillKind::SpeedUp)
    } else if chars_eq(t, "FLASH") {
        Some(SkillKind::Flash)
    } else if chars_eq(t, "DESTROY") {
        Some(SkillKind::Destroy)
    } else if chars_eq(t, "CONSTRUCT") {
        Some(SkillKind::Construct)
    } else if chars_eq(t, "TRAP") {
        Some(SkillKind::Trap)
    } else if chars_eq(t, "MISSILE") {
        Some(SkillKind::Missile)
    } else if chars_eq(t, "KAMUI") {
        Some(SkillKind::Kamui)
    } else {
        None
    }
}

/// Each SkillKind reads back from its token.
pub proof fn lemma_skill_token(v: SkillKind)
    ensures
        skill_of_token(skill_token(v)) == Some(v),
{
    reveal_strlit("BLACK_OUT");
    reveal_strlit("SPEED_UP");
    reveal_strlit("FLASH");
    reveal_strlit("DESTROY");
    reveal_strlit("CONSTRUCT");
    reveal_strlit("TRAP");
    reveal_strlit("MISSILE");
    reveal_strlit("KAMUI");
    // Tokens differ in length or in some character; these facts settle
    // each comparison of the lookup.
    assert("BLACK_OUT"@.len() == 9);
    assert("SPEED_UP"@.len() == 8);
    assert("FLASH"@.len() == 5);
    assert("DESTROY"@.len() == 7);
    assert("CONSTRUCT"@.len() == 9);
    assert("TRAP"@.len() == 4);
    assert("MISSILE"@.len() == 7);
    assert("KAMUI"@.len() == 5);
    assert("BLACK_OUT"@[0] != "CONSTRUCT"@[0]);
    assert("FLASH"@[0] != "KAMUI"@[0]);
    assert("DESTROY"@[0] != "MISSILE"@[0]);
}

/// Wire token of a buff.
pub open spec fn buff_token(v: BuffKind) -> Seq<char> {
    match v {
        BuffKind::BlackOut => "BLACK_OUT"@,
        BuffKind::SpeedUp => "SPEED_UP"@,
        BuffKind::Flash => "FLASH"@,
        BuffKind::Destroy => "DESTROY"@,
        BuffKind::Construct => "CONSTRUCT"@,
        BuffKind::Trap => "TRAP"@,
        BuffKind::Missile => "MISSILE"@,
        BuffKind::Kamui => "KAMUI"@,
        BuffKind::BulletCount => "BULLET_COUNT"@,
        BuffKind::BulletSpeed => "BULLET_SPEED"@,
        BuffKind::AttackSpeed => "ATTACK_SPEED"@,
        BuffKind::Laser => "LASER"@,
        BuffKind::Damage => "DAMAGE"@,
        BuffKind::AntiArmor => "ANTI_ARMOR"@,
        BuffKind::Armor => "ARMOR"@,
        BuffKind::Reflect => "REFLECT"@,
        BuffKind::Dodge => "DODGE"@,
        BuffKind::Knife => "KNIFE"@,
        BuffKind::Gravity => "GRAVITY"@,
    }
}

/// The BuffKind a wire token stands for.
pub open spec fn buff_of_token(t: Seq<char>) -> Option<BuffKind> {
    if t == "BLACK_OUT"@ {
        Some(BuffKind::BlackOut)
    } else if t == "SPEED_UP"@ {
        Some(BuffKind::SpeedUp)
    } else if t == "FLASH"@ {
        Some(BuffKind::Flash)
    } else if t == "DESTROY"@ {
        Some(BuffKind::Destroy)
    } else if t == "CONSTRUCT"@ {
        Some(BuffKind::Construct)
    } else if t == "TRAP"@ {
        Some(BuffKind::Trap)
    } else if t == "MISSILE"@ {
        Some(BuffKind::Missile)
    } else if t == "KAMUI"@ {
        Some(BuffKind::Kamui)
    } else if t == "BULLET_COUNT"@ {
        Some(BuffKind::BulletCount)
    } else if t == "BULLET_SPEED"@ {
        Some(BuffKind::BulletSpeed)
    } else if t == "ATTACK_SPEED"@ {
        Some(BuffKind::AttackSpeed)
    } else if t == "LASER"@ {
        Some(BuffKind::Laser)
    } else if t == "DAMAGE"@ {
        Some(BuffKind::Damage)
    } else if t == "ANTI_ARMOR"@ {
        Some(BuffKind::AntiArmor)
    } else if t == "ARMOR"@ {
        Some(BuffKind::Armor)
    } else if t == "REFLECT"@ {
        Some(BuffKind::Reflect)
    } else if t == "DODGE"@ {
        Some(BuffKind::Dodge)
    } else if t == "KNIFE"@ {
        Some(BuffKind::Knife)
    } else if t == "GRAVITY"@ {
        Some(BuffKind::Gravity)
    } else {
        None
    }
}

fn buff_token_str(v: BuffKind) -> (r: &'static str)
    ensures
        r@ == buff_token(v),
{
    match v {
        BuffKind::BlackOut => "BLACK_OUT",
        BuffKind::SpeedUp => "SPEED_UP",
        BuffKind::Flash => "FLASH",
        BuffKind::Destroy => "DESTROY",
        BuffKind::Construct => "CONSTRUCT",
        BuffKind::Trap => "TRAP",
        BuffKind::Missile => "MISSILE",
        BuffKind::Kamui => "KAMUI",
        BuffKind::BulletCount => "BULLET_COUNT",
        BuffKind::BulletSpeed => "BULLET_SPEED",
        BuffKind::AttackSpeed => "ATTACK_SPEED",
        BuffKind::Laser => "LASER",
        BuffKind::Damage => "DAMAGE",
        BuffKind::AntiArmor => "ANTI_ARMOR",
        BuffKind::Armor => "ARMOR",
        BuffKind::Reflect => "REFLECT",
        BuffKind::Dodge => "DODGE",
        BuffKind::Knife => "KNIFE",
        BuffKind::Gravity => "GRAVITY",
    }
}

fn buff_of_chars(t: &Vec<char>) -> (r: Option<BuffKind>)
    ensures
        r == buff_of_token(t@),
{
    if chars_eq(t, "BLACK_OUT") {
        Some(BuffKind::BlackOut)
    } else if chars_eq(t, "SPEED_UP") {
        Some(BuffKind::SpeedUp)
    } else if chars_eq(t, "FLASH") {
        Some(BuffKind::Flash)
    } else if chars_eq(t, "DESTROY") {
        Some(BuffKind::Destroy)
    } else if chars_eq(t, "CONSTRUCT") {
        Some(BuffKind::Construct)
    } else if chars_eq(t, "TRAP") {
        Some(BuffKind::Trap)
    } else if chars_eq(t, "MISSILE") {
        Some(BuffKind::Missile)
    } else if chars_eq(t, "KAMUI") {
        Some(BuffKind::Kamui)
    } else if chars_eq(t, "BULLET_COUNT") {
        Some(BuffKind::BulletCount)
    } else if chars_eq(t, "BULLET_SPEED") {
        Some(BuffKind::BulletSpeed)
    } else if chars_eq(t, "ATTACK_SPEED") {
        Some(BuffKind::AttackSpeed)
    } else if chars_eq(t, "LASER") {
        Some(BuffKind::Laser)
    } else if chars_eq(t, "DAMAGE") {
        Some(BuffKind::Damage)
    } else if chars_eq(t, "ANTI_ARMOR") {
        Some(BuffKind::AntiArmor)
    } else if chars_eq(t, "ARMOR") {
        Some(BuffKind::Armor)
    } else if chars_eq(t, "REFLECT") {
        Some(BuffKind::Reflect)
    } else if chars_eq(t, "DODGE") {
        Some(BuffKind::Dodge)
    } else if chars_eq(t, "KNIFE") {
        Some(BuffKind::Knife)
    } else if chars_eq(t, "GRAVITY") {
        Some(BuffKind::Gravity)
    } else {
        None
    }
}

/// Each BuffKind reads back from its token.
pub proof fn lemma_buff_token(v: BuffKind)
    ensures
        buff_of_token(buff_token(v)) == Some(v),
{
    reveal_strlit("BLACK_OUT");
    reveal_strlit("SPEED_UP");
    reveal_strlit("FLASH");
    reveal_strlit("DESTROY");
    reveal_strlit("CONSTRUCT");
    reveal_strlit("TRAP");
    reveal_strlit("MISSILE");
    reveal_strlit("KAMUI");
    reveal_strlit("BULLET_COUNT");
    reveal_strlit("BULLET_SPEED");
    reveal_strlit("ATTACK_SPEED");
    reveal_strlit("LASER");
    reveal_strlit("DAMAGE");
    reveal_strlit("ANTI_ARMOR");
    reveal_strlit("ARMOR");
    reveal_strlit("REFLECT");
    reveal_strlit("DODGE");
    reveal_strlit("KNIFE");
    reveal_strlit("GRAVITY");
    assert("BLACK_OUT"@.len() == 9);
    assert("SPEED_UP"@.len() == 8);
    assert("FLASH"@.len() == 5);
    assert("DESTROY"@.len() == 7);
    assert("CONSTRUCT"@.len() == 9);
    assert("TRAP"@.len() == 4);
    assert("MISSILE"@.len() == 7);
    assert("KAMUI"@.len() == 5);
    assert("BULLET_COUNT"@.len() == 12);
    assert("BULLET_SPEED"@.len() == 12);
    assert("ATTACK_SPEED"@.len() == 12);
    assert("LASER"@.len() == 5);
    assert("DAMAGE"@.len() == 6);
    assert("ANTI_ARMOR"@.len() == 10);
    assert("ARMOR"@.len() == 5);
    assert("REFLECT"@.len() == 7);
    assert("DODGE"@.len() == 5);
    assert("KNIFE"@.len() == 5);
    assert("GRAVITY"@.len() == 7);
    assert("BLACK_OUT"@[0] != "CONSTRUCT"@[0]);
    assert("FLASH"@[0] != "KAMUI"@[0]);
    assert("FLASH"@[0] != "LASER"@[0]);
    assert("FLASH"@[0] != "ARMOR"@[0]);
    assert("FLASH"@[0] != "DODGE"@[0]);
    assert("FLASH"@[0] != "KNIFE"@[0]);
    assert("DESTROY"@[0] != "MISSILE"@[0]);
    assert("DESTROY"@[0] != "REFLECT"@[0]);
    assert("DESTROY"@[0] != "GRAVITY"@[0]);
    assert("MISSILE"@[0] != "REFLECT"@[0]);
    assert("MISSILE"@[0] != "GRAVITY"@[0]);
    assert("KAMUI"@[0] != "LASER"@[0]);
    assert("KAMUI"@[0] != "ARMOR"@[0]);
    assert("KAMUI"@[0] != "DODGE"@[0]);
    assert("KAMUI"@[1] != "KNIFE"@[1]);
    assert("BULLET_COUNT"@[7] != "BULLET_SPEED"@[7]);
    assert("BULLET_COUNT"@[0] != "ATTACK_SPEED"@[0]);
    assert("BULLET_SPEED"@[0] != "ATTACK_SPEED"@[0]);
    assert("LASER"@[0] != "ARMOR"@[0]);
    assert("LASER"@[0] != "DODGE"@[0]);
    assert("LASER"@[0] != "KNIFE"@[0]);
    assert("ARMOR"@[0] != "DODGE"@[0]);
    assert("ARMOR"@[0] != "KNIFE"@[0]);
    assert("REFLECT"@[0] != "GRAVITY"@[0]);
    assert("DODGE"@[0] != "KNIFE"@[0]);
}

// ---- frames ----

pub open spec fn text(key: &str, t: Seq<char>) -> Field {
    (key@, Scalar::Text(t))
}

/// The fields of a command's frame, in order.
pub open spec fn fields_of(c: Command) -> Seq<Field> {
    let head = seq![text("messageType", c.kind()), text("token", c.token())];
    match c {
        Command::PerformMove { direction, distance, .. } => head + seq![
            text("direction", move_token(direction)),
            ("distance"@, Scalar::Number(fixed_text(distance as int))),
        ],
        Command::PerformTurn { direction, angle, .. } => head + seq![
            text("direction", turn_token(direction)),
            ("angle"@, Scalar::Number(digits_of(angle as nat))),
        ],
        Command::PerformSkill { skill_name, .. } => head + seq![
            text("skillName", skill_token(skill_name)),
        ],
        Command::PerformSelect { buff_name, .. } => head + seq![
            text("buffName", buff_token(buff_name)),
        ],
        Command::GetPlayerInfo { request, .. } => head + seq![
            text("request", request_token(request)),
        ],
        _ => head,
    }
}

/// The frame of a command.
pub open spec fn frame_of(c: Command) -> Seq<char> {
    render_object(fields_of(c))
}

/// The value of the first field named `key`.
pub open spec fn lookup(fs: Seq<Field>, key: Seq<char>) -> Option<Scalar>
    decreases fs.len(),
{
    if fs.len() == 0 {
        None
    } else if fs[0].0 == key {
        Some(fs[0].1)
    } else {
        lookup(fs.drop_first(), key)
    }
}

pub open spec fn text_of(fs: Seq<Field>, key: Seq<char>) -> Result<Seq<char>, SchemaError> {
    match lookup(fs, key) {
        Some(Scalar::Text(t)) => Ok(t),
        Some(Scalar::Number(_)) => Err(SchemaError::InvalidField),
        None => Err(SchemaError::MissingField),
    }
}

pub open spec fn number_of(fs: Seq<Field>, key: Seq<char>) -> Result<Seq<char>, SchemaError> {
    match lookup(fs, key) {
        Some(Scalar::Number(n)) => Ok(n),
        Some(Scalar::Text(_)) => Err(SchemaError::InvalidField),
        None => Err(SchemaError::MissingField),
    }
}

/// Reads a token field through `read`.
pub open spec fn token_field<T>(
    fs: Seq<Field>,
    key: Seq<char>,
    read: spec_fn(Seq<char>) -> Option<T>,
) -> Result<T, SchemaError> {
    match text_of(fs, key) {
        Ok(t) => match read(t) {
            Some(v) => Ok(v),
            None => Err(SchemaError::InvalidField),
        },
        Err(e) => Err(e),
    }
}

/// Reads a number field through `read`.
pub open spec fn number_field<T>(
    fs: Seq<Field>,
    key: Seq<char>,
    read: spec_fn(Seq<char>) -> Option<T>,
) -> Result<T, SchemaError> {
    match number_of(fs, key) {
        Ok(n) => match read(n) {
            Some(v) => Ok(v),
            None => Err(SchemaError::InvalidField),
        },
        Err(e) => Err(e),
    }
}

pub open spec fn known_kind(kind: Seq<char>) -> bool {
    ||| kind == "PERFORM_MOVE"@
    ||| kind == "PERFORM_TURN"@
    ||| kind == "PERFORM_ATTACK"@
    ||| kind == "PERFORM_SKILL"@
    ||| kind == "PERFORM_SELECT"@
    ||| kind == "GET_PLAYER_INFO"@
    ||| kind == "GET_ENVIRONMENT_INFO"@
    ||| kind == "GET_GAME_STATISTICS"@
    ||| kind == "GET_AVAILABLE_BUFFS"@
}

/// The command of a known kind, from its token and its own fields.
pub open spec fn command_body(kind: Seq<char>, token: Seq<char>, fs: Seq<Field>) -> Result<
    Command,
    SchemaError,
> {
    if kind == "PERFORM_MOVE"@ {
        match token_field(fs, "direction"@, |t: Seq<char>| move_of_token(t)) {
            Ok(direction) => match number_field(fs, "distance"@, |n: Seq<char>| parse_fixed(n)) {
                Ok(distance) => Ok(Command::PerformMove { token, direction, distance }),
                Err(e) => Err(e),
            },
            Err(e) => Err(e),
        }
    } else if kind == "PERFORM_TURN"@ {
        match token_field(fs, "direction"@, |t: Seq<char>| turn_of_token(t)) {
            Ok(direction) => match number_field(fs, "angle"@, |n: Seq<char>| parse_u32(n)) {
                Ok(angle) => Ok(Command::PerformTurn { token, direction, angle }),
                Err(e) => Err(e),
            },
            Err(e) => Err(e),
        }
    } else if kind == "PERFORM_ATTACK"@ {
        Ok(Command::PerformAttack { token })
    } else if kind == "PERFORM_SKILL"@ {
        match token_field(fs, "skillName"@, |t: Seq<char>| skill_of_token(t)) {
            Ok(skill_name) => Ok(Command::PerformSkill { token, skill_name }),
            Err(e) => Err(e),
        }
    } else if kind == "PERFORM_SELECT"@ {
        match token_field(fs, "buffName"@, |t: Seq<char>| buff_of_token(t)) {
            Ok(buff_name) => Ok(Command::PerformSelect { token, buff_name }),
            Err(e) => Err(e),
        }
    } else if kind == "GET_PLAYER_INFO"@ {
        match token_field(fs, "request"@, |t: Seq<char>| request_of_token(t)) {
            Ok(request) => Ok(Command::GetPlayerInfo { token, request }),
            Err(e) => Err(e),
        }
    } else if kind == "GET_ENVIRONMENT_INFO"@ {
        Ok(Command::GetEnvironmentInfo { token })
    } else if kind == "GET_GAME_STATISTICS"@ {
        Ok(Command::GetGameStatistics { token })
    } else if kind == "GET_AVAILABLE_BUFFS"@ {
        Ok(Command::GetAvailableBuffs { token })
    } else {
        Err(SchemaError::UnknownMessageType)
    }
}

/// The command that fields describe: `messageType` first, then `token`,
/// then the command's own fields. Other fields are ignored; of repeated
/// keys the first counts.
pub open spec fn command_of(fs: Seq<Field>) -> Result<Command, SchemaError> {
    match text_of(fs, "messageType"@) {
        Ok(kind) => if known_kind(kind) {
            match text_of(fs, "token"@) {
                Ok(token) => command_body(kind, token, fs),
                Err(e) => Err(e),
            }
        } else {
            Err(SchemaError::UnknownMessageType)
        },
        Err(e) => Err(e),
    }
}

/// The command a frame holds.
pub open spec fn decode_frame(s: Seq<char>) -> Result<Command, SchemaError> {
    match parse_object(s) {
        Some(fs) => command_of(fs),
        None => Err(SchemaError::Malformed),
    }
}

pub open spec fn result_view(r: Result<PerformMessage, SchemaError>) -> Result<Command, SchemaError> {
    match r {
        Ok(m) => Ok(m@),
        Err(e) => Err(e),
    }
}

// ---- laws ----

/// A skill travels under the same token as the buff that provides it.
pub proof fn lemma_skill_buff_token(skill: SkillKind)
    ensures
        buff_token(skill_buff(skill)) == skill_token(skill),
{
}

/// A buff matches a skill exactly when the two have the same name on the
/// wire.
pub proof fn lemma_buff_skill_same_name(buff: BuffKind, skill: SkillKind)
    ensures
        (buff == skill_buff(skill)) <==> (buff_token(buff) == skill_token(skill)),
{
    lemma_skill_buff_token(skill);
    lemma_buff_token(buff);
    lemma_buff_token(skill_buff(skill));
}

/// The text of a fixed-point value is a non-empty run of number characters.
pub proof fn lemma_fixed_text_chars(x: int)
    requires
        i64::MIN <= x <= i64::MAX,
    ensures
        scalar_wf(Scalar::Number(fixed_text(x))),
{
    let m = abs(x);
    let q = m / 1000000000;
    let r = m % 1000000000;
    lemma_pow10_values();
    lemma_trimmed(r, 9);
    let (f, w) = trimmed(r, 9);
    lemma_padded(f, w);
    lemma_digits_of(q, 10);
    let sign = if x < 0 {
        seq!['-']
    } else {
        Seq::<char>::empty()
    };
    let ds = digits_of(q);
    let fr = padded(f, w);
    let t = fixed_text(x);
    assert(t == sign + ds + seq!['.'] + fr);
    assert forall|j: int| 0 <= j < t.len() implies is_number_char(#[trigger] t[j]) by {
        if j < sign.len() {
        } else if j < sign.len() + ds.len() {
            assert(t[j] == ds[j - sign.len()]);
        } else if j == sign.len() + ds.len() {
        } else {
            assert(t[j] == fr[j - sign.len() - ds.len() - 1]);
        }
    }
}

/// The fields of every command's frame are well formed.
pub proof fn lemma_fields_of_wf(c: Command)
    ensures
        fields_wf(fields_of(c)),
{
    let fs = fields_of(c);
    match c {
        Command::PerformMove { distance, .. } => {
            lemma_fixed_text_chars(distance as int);
        },
        Command::PerformTurn { angle, .. } => {
            lemma_digits_of(angle as nat, 0);
            let n = digits_of(angle as nat);
            assert forall|j: int| 0 <= j < n.len() implies is_number_char(#[trigger] n[j]) by {
                assert(is_digit(n[j]));
            }
        },
        _ => {},
    }
    assert forall|i: int| 0 <= i < fs.len() implies field_wf(#[trigger] fs[i]) by {}
}

/// The fields of every command's frame describe that command.
pub proof fn lemma_command_of_fields(c: Command)
    ensures
        command_of(fields_of(c)) == Ok::<Command, SchemaError>(c),
{
    reveal_with_fuel(lookup, 5);
    reveal_strlit("messageType");
    reveal_strlit("token");
    reveal_strlit("direction");
    reveal_strlit("distance");
    reveal_strlit("angle");
    reveal_strlit("skillName");
    reveal_strlit("buffName");
    reveal_strlit("request");
    assert("messageType"@.len() == 11);
    assert("token"@.len() == 5);
    assert("direction"@.len() == 9);
    assert("distance"@.len() == 8);
    assert("angle"@.len() == 5);
    assert("skillName"@.len() == 9);
    assert("buffName"@.len() == 8);
    assert("request"@.len() == 7);
    assert("token"@[0] != "angle"@[0]);
    assert("direction"@[0] != "skillName"@[0]);
    assert("distance"@[0] != "buffName"@[0]);
    reveal_strlit("PERFORM_MOVE");
    reveal_strlit("PERFORM_TURN");
    reveal_strlit("PERFORM_ATTACK");
    reveal_strlit("PERFORM_SKILL");
    reveal_strlit("PERFORM_SELECT");
    reveal_strlit("GET_PLAYER_INFO");
    reveal_strlit("GET_ENVIRONMENT_INFO");
    reveal_strlit("GET_GAME_STATISTICS");
    reveal_strlit("GET_AVAILABLE_BUFFS");
    assert("PERFORM_MOVE"@.len() == 12);
    assert("PERFORM_TURN"@.len() == 12);
    assert("PERFORM_ATTACK"@.len() == 14);
    assert("PERFORM_SKILL"@.len() == 13);
    assert("PERFORM_SELECT"@.len() == 14);
    assert("GET_PLAYER_INFO"@.len() == 15);
    assert("GET_ENVIRONMENT_INFO"@.len() == 20);
    assert("GET_GAME_STATISTICS"@.len() == 19);
    assert("GET_AVAILABLE_BUFFS"@.len() == 19);
    assert("PERFORM_MOVE"@[8] != "PERFORM_TURN"@[8]);
    assert("PERFORM_ATTACK"@[8] != "PERFORM_SELECT"@[8]);
    assert("GET_GAME_STATISTICS"@[4] != "GET_AVAILABLE_BUFFS"@[4]);
    let fs = fields_of(c);
    match c {
        Command::PerformMove { direction, distance, .. } => {
            lemma_move_token(direction);
            lemma_fixed_round_trip(distance);
            assert(fs.drop_first().drop_first().drop_first() =~= seq![fs[3]]);
        },
        Command::PerformTurn { direction, angle, .. } => {
            lemma_turn_token(direction);
            lemma_u32_round_trip(angle);
            assert(fs.drop_first().drop_first().drop_first() =~= seq![fs[3]]);
        },
        Command::PerformSkill { skill_name, .. } => {
            lemma_skill_token(skill_name);
            assert(fs.drop_first().drop_first() =~= seq![fs[2]]);
        },
        Command::PerformSelect { buff_name, .. } => {
            lemma_buff_token(buff_name);
            assert(fs.drop_first().drop_first() =~= seq![fs[2]]);
        },
        Command::GetPlayerInfo { request, .. } => {
            lemma_request_token(request);
            assert(fs.drop_first().drop_first() =~= seq![fs[2]]);
        },
        _ => {},
    }
    assert(fs.drop_first() =~= fs.subrange(1, fs.len() as int));
}

/// Decoding the frame of any command gives that command back.
pub proof fn lemma_decode_frame(c: Command)
    ensures
        decode_frame(frame_of(c)) == Ok::<Command, SchemaError>(c),
{
    lemma_fields_of_wf(c);
    lemma_parse_object(fields_of(c));
    lemma_command_of_fields(c);
}

// ---- executable ----

fn text_exec(key: &str, t: Vec<char>) -> (r: WireField)
    ensures
        r@ == text(key, t@),
{
    WireField { key: chars_of(key), value: WireScalar::Text(t) }
}

fn kind_str(m: &PerformMessage) -> (r: &'static str)
    ensures
        r@ == m@.kind(),
{
    match m {
        PerformMessage::PerformMove { .. } => "PERFORM_MOVE",
        PerformMessage::PerformTurn { .. } => "PERFORM_TURN",
        PerformMessage::PerformAttack { .. } => "PERFORM_ATTACK",
        PerformMessage::PerformSkill { .. } => "PERFORM_SKILL",
        PerformMessage::PerformSelect { .. } => "PERFORM_SELECT",
        PerformMessage::GetPlayerInfo { .. } => "GET_PLAYER_INFO",
        PerformMessage::GetEnvironmentInfo { .. } => "GET_ENVIRONMENT_INFO",
        PerformMessage::GetGameStatistics { .. } => "GET_GAME_STATISTICS",
        PerformMessage::GetAvailableBuffs { .. } => "GET_AVAILABLE_BUFFS",
    }
}

impl PerformMessage {
    /// The token the command carries.
    pub fn token(&self) -> (r: &String)
        ensures
            r@ == self@.token(),
    {
        match self {
            PerformMessage::PerformMove { token, .. } => token,
            PerformMessage::PerformTurn { token, .. } => token,
            PerformMessage::PerformAttack { token } => token,
            PerformMessage::PerformSkill { token, .. } => token,
            PerformMessage::PerformSelect { token, .. } => token,
            PerformMessage::GetPlayerInfo { token, .. } => token,
            PerformMessage::GetEnvironmentInfo { token } => token,
            PerformMessage::GetGameStatistics { token } => token,
            PerformMessage::GetAvailableBuffs { token } => token,
        }
    }
}

fn fields_of_exec(m: &PerformMessage) -> (r: Vec<WireField>)
    ensures
        fields_view(r@) == fields_of(m@),
{
    let mut r: Vec<WireField> = Vec::new();
    r.push(text_exec("messageType", chars_of(kind_str(m))));
    r.push(text_exec("token", chars_of(m.token().as_str())));
    match m {
        PerformMessage::PerformMove { direction, distance, .. } => {
            r.push(text_exec("direction", chars_of(move_token_str(*direction))));
            r.push(
                WireField {
                    key: chars_of("distance"),
                    value: WireScalar::Number(fixed_text_exec(*distance)),
                },
            );
        },
        PerformMessage::PerformTurn { direction, angle, .. } => {
            r.push(text_exec("direction", chars_of(turn_token_str(*direction))));
            r.push(WireField { key: chars_of("angle"), value: WireScalar::Number(u32_text(*angle)) });
        },
        PerformMessage::PerformSkill { skill_name, .. } => {
            r.push(text_exec("skillName", chars_of(skill_token_str(*skill_name))));
        },
        PerformMessage::PerformSelect { buff_name, .. } => {
            r.push(text_exec("buffName", chars_of(buff_token_str(*buff_name))));
        },
        PerformMessage::GetPlayerInfo { request, .. } => {
            r.push(text_exec("request", chars_of(request_token_str(*request))));
        },
        _ => {},
    }
    assert(fields_view(r@) =~= fields_of(m@));
    r
}

/// The frame of a command.
pub fn encode(m: &PerformMessage) -> (r: String)
    ensures
        r@ == frame_of(m@),
{
    let fs = fields_of_exec(m);
    string_of_chars(render_object_exec(&fs))
}

fn lookup_exec(fs: &Vec<WireField>, key: &str) -> (r: Option<usize>)
    ensures
        r matches Some(i) ==> i < fs@.len() && lookup(fields_view(fs@), key@) == Some(
            fs@[i as int].value@,
        ),
        r is None ==> lookup(fields_view(fs@), key@) is None,
{
    let ghost v = fields_view(fs@);
    let mut i: usize = 0;
    assert(v.skip(0) =~= v);
    while i < fs.len()
        invariant
            i <= fs@.len(),
            v == fields_view(fs@),
            lookup(v, key@) == lookup(v.skip(i as int), key@),
        decreases fs.len() - i,
    {
        assert(v.skip(i as int)[0] == fs@[i as int]@);
        if chars_eq(&fs[i].key, key) {
            return Some(i);
        }
        assert(v.skip(i as int).drop_first() =~= v.skip(i + 1));
        i = i + 1;
    }
    assert(v.skip(i as int).len() == 0);
    None
}

fn text_of_exec(fs: &Vec<WireField>, key: &str) -> (r: Result<Vec<char>, SchemaError>)
    ensures
        r matches Ok(t) ==> text_of(fields_view(fs@), key@) == Ok::<Seq<char>, SchemaError>(t@),
        r matches Err(e) ==> text_of(fields_view(fs@), key@) == Err::<Seq<char>, SchemaError>(e),
{
    match lookup_exec(fs, key) {
        Some(i) => match &fs[i].value {
            WireScalar::Text(t) => {
                let mut r: Vec<char> = Vec::new();
                push_chars(&mut r, t);
                Ok(r)
            },
            WireScalar::Number(_) => Err(SchemaError::InvalidField),
        },
        None => Err(SchemaError::MissingField),
    }
}

fn number_of_exec(fs: &Vec<WireField>, key: &str) -> (r: Result<Vec<char>, SchemaError>)
    ensures
        r matches Ok(n) ==> number_of(fields_view(fs@), key@) == Ok::<Seq<char>, SchemaError>(n@),
        r matches Err(e) ==> number_of(fields_view(fs@), key@) == Err::<Seq<char>, SchemaError>(e),
{
    match lookup_exec(fs, key) {
        Some(i) => match &fs[i].value {
            WireScalar::Number(n) => {
                let mut r: Vec<char> = Vec::new();
                push_chars(&mut r, n);
                Ok(r)
            },
            WireScalar::Text(_) => Err(SchemaError::InvalidField),
        },
        None => Err(SchemaError::MissingField),
    }
}

fn command_body_exec(kind: &Vec<char>, token: String, fs: &Vec<WireField>) -> (r: Result<
    PerformMessage,
    SchemaError,
>)
    ensures
        result_view(r) == command_body(kind@, token@, fields_view(fs@)),
{
    let ghost v = fields_view(fs@);
    if chars_eq(kind, "PERFORM_MOVE") {
        let direction = match text_of_exec(fs, "direction") {
            Ok(t) => match move_of_chars(&t) {
                Some(d) => d,
                None => return Err(SchemaError::InvalidField),
            },
            Err(e) => return Err(e),
        };
        let distance = match number_of_exec(fs, "distance") {
            Ok(n) => match parse_fixed_exec(&n) {
                Some(x) => x,
                None => return Err(SchemaError::InvalidField),
            },
            Err(e) => return Err(e),
        };
        Ok(PerformMessage::PerformMove { token, direction, distance })
    } else if chars_eq(kind, "PERFORM_TURN") {
        let direction = match text_of_exec(fs, "direction") {
            Ok(t) => match turn_of_chars(&t) {
                Some(d) => d,
                None => return Err(SchemaError::InvalidField),
            },
            Err(e) => return Err(e),
        };
        let angle = match number_of_exec(fs, "angle") {
            Ok(n) => match parse_u32_exec(&n) {
                Some(a) => a,
                None => return Err(SchemaError::InvalidField),
            },
            Err(e) => return Err(e),
        };
        Ok(PerformMessage::PerformTurn { token, direction, angle })
    } else if chars_eq(kind, "PERFORM_ATTACK") {
        Ok(PerformMessage::PerformAttack { token })
    } else if chars_eq(kind, "PERFORM_SKILL") {
        match text_of_exec(fs, "skillName") {
            Ok(t) => match skill_of_chars(&t) {
                Some(skill_name) => Ok(PerformMessage::PerformSkill { token, skill_name }),
                None => Err(SchemaError::InvalidField),
            },
            Err(e) => Err(e),
        }
    } else if chars_eq(kind, "PERFORM_SELECT") {
        match text_of_exec(fs, "buffName") {
            Ok(t) => match buff_of_chars(&t) {
                Some(buff_name) => Ok(PerformMessage::PerformSelect { token, buff_name }),
                None => Err(SchemaError::InvalidField),
            },
            Err(e) => Err(e),
        }
    } else if chars_eq(kind, "GET_PLAYER_INFO") {
        match text_of_exec(fs, "request") {
            Ok(t) => match request_of_chars(&t) {
                Some(request) => Ok(PerformMessage::GetPlayerInfo { token, request }),
                None => Err(SchemaError::InvalidField),
            },
            Err(e) => Err(e),
        }
    } else if chars_eq(kind, "GET_ENVIRONMENT_INFO") {
        Ok(PerformMessage::GetEnvironmentInfo { token })
    } else if chars_eq(kind, "GET_GAME_STATISTICS") {
        Ok(PerformMessage::GetGameStatistics { token })
    } else if chars_eq(kind, "GET_AVAILABLE_BUFFS") {
        Ok(PerformMessage::GetAvailableBuffs { token })
    } else {
        Err(SchemaError::UnknownMessageType)
    }
}

fn known_kind_exec(kind: &Vec<char>) -> (r: bool)
    ensures
        r == known_kind(kind@),
{
    chars_eq(kind, "PERFORM_MOVE") || chars_eq(kind, "PERFORM_TURN") || chars_eq(
        kind,
        "PERFORM_ATTACK",
    ) || chars_eq(kind, "PERFORM_SKILL") || chars_eq(kind, "PERFORM_SELECT") || chars_eq(
        kind,
        "GET_PLAYER_INFO",
    ) || chars_eq(kind, "GET_ENVIRONMENT_INFO") || chars_eq(kind, "GET_GAME_STATISTICS")
        || chars_eq(kind, "GET_AVAILABLE_BUFFS")
}

/// The command that decoded fields describe.
fn command_of_exec(fs: &Vec<WireField>) -> (r: Result<PerformMessage, SchemaError>)
    ensures
        result_view(r) == command_of(fields_view(fs@)),
{
    let kind = match text_of_exec(fs, "messageType") {
        Ok(k) => k,
        Err(e) => return Err(e),
    };
    if !known_kind_exec(&kind) {
        return Err(SchemaError::UnknownMessageType);
    }
    let token = match text_of_exec(fs, "token") {
        Ok(t) => string_of_chars(t),
        Err(e) => return Err(e),
    };
    command_body_exec(&kind, token, fs)
}

/// The command a frame holds, or why it holds none.
pub fn decode(frame: &str) -> (r: Result<PerformMessage, SchemaError>)
    ensures
        result_view(r) == decode_frame(frame@),
{
    let s = chars_of(frame);
    match parse_object_exec(&s) {
        Some(fs) => command_of_exec(&fs),
        None => Err(SchemaError::Malformed),
    }
}

} // verus!
