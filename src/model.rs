//! Value types of the game: positions, players, the environment, statistics
//! and the buff and skill kinds.
//!
//! Real-valued quantities (coordinates, angles, speeds, rates) are held in
//! fixed point, as a signed count of `1 / FIXED_ONE` units.
use vstd::prelude::*;
use vstd::std_specs::cmp::PartialEqSpec;

verus! {

/// One unit of a fixed-point quantity: values are counts of billionths.
pub const FIXED_ONE: i64 = 1_000_000_000;

/// Two fixed-point positions closer than this on each axis (1e-6) are equal.
pub const POSITION_EPSILON: i64 = 1000;

/// A point with a heading (`angle`, in fixed-point radians, not normalised).
///
/// `T` is `i32` for grid positions and `i64` (fixed point) for real-valued
/// ones; equality ignores the angle on both.
#[derive(Debug, Clone, Copy)]
pub struct Position<T> {
    pub x: T,
    pub y: T,
    pub angle: i64,
}

impl<T> Position<T> {
    /// Builds a position from its coordinates and heading.
    pub fn new(x: T, y: T, angle: i64) -> (r: Position<T>)
        ensures
            r.x == x,
            r.y == y,
            r.angle == angle,
    {
        Position { x, y, angle }
    }
}

pub open spec fn abs_diff(a: int, b: int) -> int {
    if a >= b { a - b } else { b - a }
}

impl PartialEq for Position<i32> {
    fn eq(&self, other: &Position<i32>) -> (r: bool) {
        self.x == other.x && self.y == other.y
    }
}

impl vstd::std_specs::cmp::PartialEqSpecImpl for Position<i32> {
    open spec fn obeys_eq_spec() -> bool {
        true
    }

    open spec fn eq_spec(&self, other: &Position<i32>) -> bool {
        self.x == other.x && self.y == other.y
    }
}

impl PartialEq for Position<i64> {
    fn eq(&self, other: &Position<i64>) -> (r: bool) {
        let dx: i128 = self.x as i128 - other.x as i128;
        let dy: i128 = self.y as i128 - other.y as i128;
        -(POSITION_EPSILON as i128) < dx && dx < POSITION_EPSILON as i128
            && -(POSITION_EPSILON as i128) < dy && dy < POSITION_EPSILON as i128
    }
}

impl vstd::std_specs::cmp::PartialEqSpecImpl for Position<i64> {
    open spec fn obeys_eq_spec() -> bool {
        true
    }

    open spec fn eq_spec(&self, other: &Position<i64>) -> bool {
        abs_diff(self.x as int, other.x as int) < POSITION_EPSILON
            && abs_diff(self.y as int, other.y as int) < POSITION_EPSILON
    }
}

/// Grid positions are equal exactly when their coordinates are; the heading
/// plays no part.
pub proof fn lemma_grid_position_eq(p: Position<i32>, q: Position<i32>)
    ensures
        p.eq_spec(&q) <==> (p.x == q.x && p.y == q.y),
        forall|a: i64| (Position { angle: a, ..p }).eq_spec(&q) == p.eq_spec(&q),
{
}

/// Real positions are equal exactly when they are closer than the epsilon
/// on each axis; the heading plays no part.
pub proof fn lemma_real_position_eq(p: Position<i64>, q: Position<i64>)
    ensures
        p.eq_spec(&q) <==> (abs_diff(p.x as int, q.x as int) < POSITION_EPSILON && abs_diff(
            p.y as int,
            q.y as int,
        ) < POSITION_EPSILON),
        forall|a: i64| (Position { angle: a, ..p }).eq_spec(&q) == p.eq_spec(&q),
{
}

/// Stage of a game: `Rest`, then `Battle`, then `End`.
#[derive(Debug, Clone, Copy, PartialEq, Eq, Structural)]
pub enum Stage {
    Rest,
    Battle,
    End,
}

/// One scoreboard entry: a player's token and score.
#[derive(Debug, Clone, PartialEq)]
pub struct TokenScore {
    pub token: String,
    pub score: u32,
}

impl TokenScore {
    pub fn new(token: String, score: u32) -> (r: TokenScore)
        ensures
            r.token == token,
            r.score == score,
    {
        TokenScore { token, score }
    }
}

/// Every player's score, in the order the server sent them.
#[derive(Debug, Clone)]
pub struct ScoreBoard {
    pub scores: Vec<TokenScore>,
}

impl ScoreBoard {
    pub fn new(scores: Vec<TokenScore>) -> (r: ScoreBoard)
        ensures
            r.scores == scores,
    {
        ScoreBoard { scores }
    }
}

/// Statistics of the game: stage, countdown of the stage, tick counter and
/// scoreboard.
#[derive(Debug, Clone)]
pub struct GameStatistics {
    pub current_stage: Stage,
    pub count_down: u32,
    pub ticks: u32,
    pub scores: ScoreBoard,
}

impl GameStatistics {
    pub fn new(current_stage: Stage, count_down: u32, ticks: u32, scores: ScoreBoard) -> (r:
        GameStatistics)
        ensures
            r.current_stage == current_stage,
            r.count_down == count_down,
            r.ticks == ticks,
            r.scores == scores,
    {
        GameStatistics { current_stage, count_down, ticks, scores }
    }
}

/// An indestructible wall segment; `angle` is 0 (along x) or a quarter turn
/// (along y), in fixed-point radians.
#[derive(Debug, Clone, Copy, PartialEq, Eq, Structural)]
pub struct Wall {
    pub x: i32,
    pub y: i32,
    pub angle: i64,
}

/// A destructible wall segment; it leaves the map when its health reaches 0.
#[derive(Debug, Clone, Copy)]
pub struct Fence {
    pub position: Position<i32>,
    pub health: u32,
}

/// A bullet in flight. `speed`, `damage` and `traveled_distance` are fixed
/// point; the server expires a bullet by the distance it has travelled.
#[derive(Debug, Clone, Copy)]
pub struct Bullet {
    pub id: u32,
    pub is_missile: bool,
    pub is_anti_armor: bool,
    pub position: Position<i64>,
    pub speed: i64,
    pub damage: i64,
    pub traveled_distance: i64,
}

/// What is on the map: its size (on both axes), walls, fences and bullets.
#[derive(Debug, Clone)]
pub struct EnvironmentInfo {
    pub map_size: u32,
    pub walls: Vec<Wall>,
    pub fences: Vec<Fence>,
    pub bullets: Vec<Bullet>,
}

/// Every kind of buff. The first eight can also be activated and have a
/// same-named [`SkillKind`]; the rest are passive.
#[derive(Debug, Clone, Copy, PartialEq, Eq, Structural)]
pub enum BuffKind {
    BlackOut,
    SpeedUp,
    Flash,
    Destroy,
    Construct,
    Trap,
    Missile,
    Kamui,
    BulletCount,
    BulletSpeed,
    AttackSpeed,
    Laser,
    Damage,
    AntiArmor,
    Armor,
    Reflect,
    Dodge,
    Knife,
    Gravity,
}

/// The buffs a player may pick from.
pub type AvailableBuffs = Vec<BuffKind>;

/// State of the armor knife granted by [`BuffKind::Knife`]: `NotOwned`, then
/// `Available`, `Active` and `Broken`.
#[derive(Debug, Clone, Copy, PartialEq, Eq, Structural)]
pub enum ArmorKnifeState {
    NotOwned,
    Available,
    Active,
    Broken,
}

/// The activatable buffs.
#[derive(Debug, Clone, Copy, PartialEq, Eq, Structural)]
pub enum SkillKind {
    BlackOut,
    SpeedUp,
    Flash,
    Destroy,
    Construct,
    Trap,
    Missile,
    Kamui,
}

/// The buff that provides a skill: the one of the same name.
pub open spec fn skill_buff(skill: SkillKind) -> BuffKind {
    match skill {
        SkillKind::BlackOut => BuffKind::BlackOut,
        SkillKind::SpeedUp => BuffKind::SpeedUp,
        SkillKind::Flash => BuffKind::Flash,
        SkillKind::Destroy => BuffKind::Destroy,
        SkillKind::Construct => BuffKind::Construct,
        SkillKind::Trap => BuffKind::Trap,
        SkillKind::Missile => BuffKind::Missile,
        SkillKind::Kamui => BuffKind::Kamui,
    }
}

/// Whether `buff` is the buff of the same name as `skill`.
///
/// The comparison goes one way only, buff against skill; there is no
/// skill-against-buff counterpart.
pub fn buff_matches_skill(buff: BuffKind, skill: SkillKind) -> (r: bool)
    ensures
        r == (buff == skill_buff(skill)),
{
    match (buff, skill) {
        (BuffKind::BlackOut, SkillKind::BlackOut) => true,
        (BuffKind::SpeedUp, SkillKind::SpeedUp) => true,
        (BuffKind::Flash, SkillKind::Flash) => true,
        (BuffKind::Destroy, SkillKind::Destroy) => true,
        (BuffKind::Construct, SkillKind::Construct) => true,
        (BuffKind::Trap, SkillKind::Trap) => true,
        (BuffKind::Missile, SkillKind::Missile) => true,
        (BuffKind::Kamui, SkillKind::Kamui) => true,
        _ => false,
    }
}

/// A player's weapon; `attack_speed` and `bullet_speed` are fixed point.
#[derive(Debug, Clone, Copy, PartialEq, Eq, Structural)]
pub struct Weapon {
    pub attack_speed: i64,
    pub bullet_speed: i64,
    pub is_laser: bool,
    pub anti_armor: bool,
    pub damage: u32,
    pub max_bullets: u32,
    pub current_bullets: u32,
}

impl Weapon {
    /// A weapon never holds more bullets than its capacity.
    pub open spec fn wf(&self) -> bool {
        self.current_bullets <= self.max_bullets
    }

    pub fn new(
        attack_speed: i64,
        bullet_speed: i64,
        is_laser: bool,
        anti_armor: bool,
        damage: u32,
        max_bullets: u32,
        current_bullets: u32,
    ) -> (r: Weapon)
        requires
            current_bullets <= max_bullets,
        ensures
            r == (Weapon {
                attack_speed,
                bullet_speed,
                is_laser,
                anti_armor,
                damage,
                max_bullets,
                current_bullets,
            }),
            r.wf(),
    {
        Weapon {
            attack_speed,
            bullet_speed,
            is_laser,
            anti_armor,
            damage,
            max_bullets,
            current_bullets,
        }
    }
}

/// A player's armor. `health` may drop below 0 before the server processes
/// the death; `dodge_rate` is a fixed-point fraction in `[0, 1]`.
#[derive(Debug, Clone, Copy, PartialEq, Eq, Structural)]
pub struct Armor {
    pub can_reflect: bool,
    pub gravity_field: bool,
    pub armor_value: u32,
    pub health: i32,
    pub dodge_rate: i64,
    pub knife: ArmorKnifeState,
}

impl Armor {
    /// The dodge rate is a probability.
    pub open spec fn wf(&self) -> bool {
        0 <= self.dodge_rate <= FIXED_ONE
    }

    pub fn new(
        can_reflect: bool,
        gravity_field: bool,
        armor_value: u32,
        health: i32,
        dodge_rate: i64,
        knife: ArmorKnifeState,
    ) -> (r: Armor)
        requires
            0 <= dodge_rate <= FIXED_ONE,
        ensures
            r == (Armor { can_reflect, gravity_field, armor_value, health, dodge_rate, knife }),
            r.wf(),
    {
        Armor { can_reflect, gravity_field, armor_value, health, dodge_rate, knife }
    }
}

/// A skill a player holds, with its cooldown (in ticks) and whether it is on.
#[derive(Debug, Clone, Copy, PartialEq, Eq, Structural)]
pub struct Skill {
    pub name: SkillKind,
    pub max_cool_down: u32,
    pub current_cool_down: u32,
    pub is_active: bool,
}

impl Skill {
    /// The remaining cooldown never exceeds the full one.
    pub open spec fn wf(&self) -> bool {
        self.current_cool_down <= self.max_cool_down
    }

    pub fn new(name: SkillKind, max_cool_down: u32, current_cool_down: u32, is_active: bool) -> (r:
        Skill)
        requires
            current_cool_down <= max_cool_down,
        ensures
            r == (Skill { name, max_cool_down, current_cool_down, is_active }),
            r.wf(),
    {
        Skill { name, max_cool_down, current_cool_down, is_active }
    }
}

/// A player: token, position (fixed point), weapon, armor and skills.
#[derive(Debug, Clone, PartialEq)]
pub struct Player {
    pub token: String,
    pub position: Position<i64>,
    pub weapon: Weapon,
    pub armor: Armor,
    pub skills: Vec<Skill>,
}

impl Player {
    /// Weapon, armor and every skill are well formed.
    pub open spec fn wf(&self) -> bool {
        &&& self.weapon.wf()
        &&& self.armor.wf()
        &&& forall|i: int| 0 <= i < self.skills@.len() ==> (#[trigger] self.skills@[i]).wf()
    }

    pub fn new(
        token: String,
        position: Position<i64>,
        weapon: Weapon,
        armor: Armor,
        skills: Vec<Skill>,
    ) -> (r: Player)
        ensures
            r.token == token,
            r.position == position,
            r.weapon == weapon,
            r.armor == armor,
            r.skills == skills,
    {
        Player { token, position, weapon, armor, skills }
    }
}

/// The players the server reports.
pub type Players = Vec<Player>;

/// Direction of a move.
#[derive(Debug, Clone, Copy, PartialEq, Eq, Structural)]
pub enum MoveDirection {
    Back,
    Forth,
}

/// Direction of a turn.
#[derive(Debug, Clone, Copy, PartialEq, Eq, Structural)]
pub enum TurnDirection {
    Clockwise,
    CounterClockwise,
}

/// Whose information a player-info request asks for.
#[derive(Debug, Clone, Copy, PartialEq, Eq, Structural)]
pub enum RequestType {
    TheSelf,
    Opponent,
}

} // verus!
