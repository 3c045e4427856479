use thuai_8_agent_rust::model::{
    buff_matches_skill, Armor, ArmorKnifeState, BuffKind, GameStatistics, Player, Position,
    ScoreBoard, Skill, SkillKind, Stage, TokenScore, Weapon, FIXED_ONE,
};

#[test]
fn grid_positions_ignore_angle() {
    let a = Position::new(3i32, 2i32, 1_000_000_000);
    let b = Position::new(3i32, 2i32, 2_000_000_000);
    assert!(a == b);
    assert!(Position::new(3i32, 2i32, 0) != Position::new(3i32, 3i32, 0));
    assert!(Position::new(4i32, 2i32, 0) != Position::new(3i32, 2i32, 0));
}

#[test]
fn real_positions_compare_within_epsilon() {
    let p = Position::new(3 * FIXED_ONE, 4 * FIXED_ONE, 5 * FIXED_ONE);
    assert!(p == Position::new(3 * FIXED_ONE, 4 * FIXED_ONE, 0));
    assert!(p == Position::new(3 * FIXED_ONE + 999, 4 * FIXED_ONE - 999, -7));
    assert!(p != Position::new(3 * FIXED_ONE + 1000, 4 * FIXED_ONE, 5 * FIXED_ONE));
    assert!(p != Position::new(3 * FIXED_ONE, 4 * FIXED_ONE - 1000, 5 * FIXED_ONE));
    let far = Position::new(i64::MAX, i64::MAX, 0);
    assert!(far != Position::new(i64::MIN, i64::MIN, 0));
}

#[test]
fn buff_matches_skill_of_same_name() {
    assert!(buff_matches_skill(BuffKind::Missile, SkillKind::Missile));
    assert!(buff_matches_skill(BuffKind::Construct, SkillKind::Construct));
    assert!(buff_matches_skill(BuffKind::BlackOut, SkillKind::BlackOut));
    assert!(!buff_matches_skill(BuffKind::Missile, SkillKind::Flash));
    assert!(!buff_matches_skill(BuffKind::Gravity, SkillKind::Kamui));
}

#[test]
fn constructors_keep_their_fields() {
    let weapon = Weapon::new(2 * FIXED_ONE, 3 * FIXED_ONE, false, false, 20, 10, 0);
    assert_eq!(weapon.damage, 20);
    assert_eq!(weapon.max_bullets, 10);
    let armor = Armor::new(false, false, 20, -5, FIXED_ONE / 2, ArmorKnifeState::Active);
    assert_eq!(armor.health, -5);
    assert_eq!(armor.knife, ArmorKnifeState::Active);
    let skill = Skill::new(SkillKind::BlackOut, 20, 10, true);
    assert_eq!(skill.name, SkillKind::BlackOut);
    let player = Player::new(
        "1919810".to_string(),
        Position::new(2 * FIXED_ONE, 3 * FIXED_ONE, 0),
        Weapon::new(FIXED_ONE, FIXED_ONE, false, false, 10, 10, 0),
        Armor::new(false, false, 10, 20, FIXED_ONE, ArmorKnifeState::NotOwned),
        vec![Skill::new(SkillKind::Flash, 20, 10, true)],
    );
    assert_eq!(player.weapon, Weapon::new(FIXED_ONE, FIXED_ONE, false, false, 10, 10, 0));
    assert_eq!(player.skills.len(), 1);
    let stats = GameStatistics::new(
        Stage::Battle,
        30,
        120,
        ScoreBoard::new(vec![TokenScore::new("b".to_string(), 7), TokenScore::new("a".to_string(), 9)]),
    );
    assert_eq!(stats.current_stage, Stage::Battle);
    assert_eq!(stats.scores.scores[0], TokenScore::new("b".to_string(), 7));
    assert_eq!(stats.scores.scores[1].score, 9);
}
