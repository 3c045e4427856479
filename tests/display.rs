use thuai_8_agent_rust::model::{
    Bullet, EnvironmentInfo, Fence, GameStatistics, Position, ScoreBoard, Stage, TokenScore, Wall,
    FIXED_ONE,
};

fn bullet() -> Bullet {
    Bullet {
        id: 7,
        is_missile: true,
        is_anti_armor: false,
        position: Position::new(FIXED_ONE, 2 * FIXED_ONE, 0),
        speed: 1_500_000_000,
        damage: 10 * FIXED_ONE,
        traveled_distance: 250_000_000,
    }
}

#[test]
fn positions_show_coordinates_and_angle() {
    assert_eq!(Position::new(3i32, -2i32, 500_000_000).to_text(), "Position: {x: 3, y: -2, angle: 0.5}");
    assert_eq!(
        Position::new(3 * FIXED_ONE, 2_500_000_000, -FIXED_ONE).to_text(),
        "Position: {x: 3.0, y: 2.5, angle: -1.0}"
    );
}

#[test]
fn walls_fences_and_bullets_show_their_fields() {
    assert_eq!(Wall { x: 1, y: -2, angle: 0 }.to_text(), "Wall: { position: { x: 1, y: -2, angle: 0.0} }");
    assert_eq!(
        Fence { position: Position::new(1, 2, 0), health: 5 }.to_text(),
        "Fence: { position: Position: {x: 1, y: 2, angle: 0.0}, health: 5 }"
    );
    assert_eq!(
        bullet().to_text(),
        "Bullet: { No: 7, IsMissile: true, IsAntiArmor: false, Position: Position: {x: 1.0, y: 2.0, angle: 0.0}, Speed: 1.5, Damage: 10.0, TraveledDistance: 0.25 }"
    );
}

#[test]
fn environment_lists_every_entity() {
    let env = EnvironmentInfo {
        map_size: 10,
        walls: vec![Wall { x: 1, y: 2, angle: 0 }, Wall { x: 3, y: 4, angle: 1_570_796_327 }],
        fences: vec![],
        bullets: vec![bullet()],
    };
    assert_eq!(
        env.to_text(),
        "EnvironmentInfo: { MapSize: 10, Walls: [Wall: { position: { x: 1, y: 2, angle: 0.0} }, Wall: { position: { x: 3, y: 4, angle: 1.570796327} }, ], Fences: [], Bullets: [Bullet: { No: 7, IsMissile: true, IsAntiArmor: false, Position: Position: {x: 1.0, y: 2.0, angle: 0.0}, Speed: 1.5, Damage: 10.0, TraveledDistance: 0.25 }, ] }"
    );
}

#[test]
fn statistics_show_the_scoreboard_one_entry_per_line() {
    let board = ScoreBoard::new(vec![TokenScore::new("a".to_string(), 1), TokenScore::new("b".to_string(), 20)]);
    assert_eq!(board.to_text(), "[\n Token(a): Score(1) , \n Token(b): Score(20) , \n]\n");
    assert_eq!(TokenScore::new("x".to_string(), 0).to_text(), " Token(x): Score(0) ");
    let stats = GameStatistics::new(Stage::Battle, 3, 9, ScoreBoard::new(vec![]));
    assert_eq!(stats.to_text(), "GameStatistics: { Stage: BATTLE, CountDown: 3, Ticks: 9, Scores: [\n]\n }");
}
