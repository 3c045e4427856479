//! Human-readable text of the model's values, for logs.
//!
//! Real values show as their decimal text (`2.5`, `3.0`); enumerations as
//! their wire tokens.
use vstd::prelude::*;
use crate::model::{
    Bullet, EnvironmentInfo, Fence, GameStatistics, Position, ScoreBoard, Stage, TokenScore, Wall,
};
use crate::number::{abs, digits_of, fixed_text, fixed_text_exec, push_digits};
use crate::text::{push_chars, push_str, string_of_chars};

verus! {

pub open spec fn int_text(v: int) -> Seq<char> {
    if v < 0 {
        seq!['-'] + digits_of(abs(v))
    } else {
        digits_of(v as nat)
    }
}

pub open spec fn bool_text(b: bool) -> Seq<char> {
    if b {
        "true"@
    } else {
        "false"@
    }
}

/// The parts, one after the other.
pub open spec fn concat_all(parts: Seq<Seq<char>>) -> Seq<char>
    decreases parts.len(),
{
    if parts.len() == 0 {
        Seq::empty()
    } else {
        concat_all(parts.drop_last()) + parts.last()
    }
}

pub open spec fn stage_name(s: Stage) -> Seq<char> {
    match s {
        Stage::Rest => "REST"@,
        Stage::Battle => "BATTLE"@,
        Stage::End => "END"@,
    }
}

pub open spec fn grid_position_text(p: Position<i32>) -> Seq<char> {
    "Position: {x: "@ + int_text(p.x as int) + ", y: "@ + int_text(p.y as int) + ", angle: "@
        + fixed_text(p.angle as int) + "}"@
}

pub open spec fn real_position_text(p: Position<i64>) -> Seq<char> {
    "Position: {x: "@ + fixed_text(p.x as int) + ", y: "@ + fixed_text(p.y as int) + ", angle: "@
        + fixed_text(p.angle as int) + "}"@
}

pub open spec fn token_score_text(t: TokenScore) -> Seq<char> {
    " Token("@ + t.token@ + "): Score("@ + digits_of(t.score as nat) + ") "@
}

/// One entry per line.
pub open spec fn score_board_text(b: ScoreBoard) -> Seq<char> {
    "[\n"@ + concat_all(b.scores@.map_values(|t: TokenScore| token_score_text(t) + ", \n"@))
        + "]\n"@
}

pub open spec fn game_statistics_text(g: GameStatistics) -> Seq<char> {
    "GameStatistics: { Stage: "@ + stage_name(g.current_stage) + ", CountDown: "@ + digits_of(
        g.count_down as nat,
    ) + ", Ticks: "@ + digits_of(g.ticks as nat) + ", Scores: "@ + score_board_text(g.scores)
        + " }"@
}

pub open spec fn wall_text(w: Wall) -> Seq<char> {
    "Wall: { position: { x: "@ + int_text(w.x as int) + ", y: "@ + int_text(w.y as int)
        + ", angle: "@ + fixed_text(w.angle as int) + "} }"@
}

pub open spec fn fence_text(f: Fence) -> Seq<char> {
    "Fence: { position: "@ + grid_position_text(f.position) + ", health: "@ + digits_of(
        f.health as nat,
    ) + " }"@
}

pub open spec fn bullet_text(b: Bullet) -> Seq<char> {
    "Bullet: { No: "@ + digits_of(b.id as nat) + ", IsMissile: "@ + bool_text(b.is_missile)
        + ", IsAntiArmor: "@ + bool_text(b.is_anti_armor) + ", Position: "@ + real_position_text(
        b.position,
    ) + ", Speed: "@ + fixed_text(b.speed as int) + ", Damage: "@ + fixed_text(b.damage as int)
        + ", TraveledDistance: "@ + fixed_text(b.traveled_distance as int) + " }"@
}

pub open spec fn environment_text(e: EnvironmentInfo) -> Seq<char> {
    "EnvironmentInfo: { MapSize: "@ + digits_of(e.map_size as nat) + ", Walls: ["@ + concat_all(
        e.walls@.map_values(|w: Wall| wall_text(w) + ", "@),
    ) + "], Fences: ["@ + concat_all(e.fences@.map_values(|f: Fence| fence_text(f) + ", "@))
        + "], Bullets: ["@ + concat_all(e.bullets@.map_values(|b: Bullet| bullet_text(b) + ", "@))
        + "] }"@
}

proof fn lemma_concat_all_take(parts: Seq<Seq<char>>, i: int)
    requires
        0 <= i < parts.len(),
    ensures
        concat_all(parts.take(i + 1)) == concat_all(parts.take(i)) + parts[i],
{
    assert(parts.take(i + 1).drop_last() =~= parts.take(i));
}

fn push_int(out: &mut Vec<char>, v: i64)
    ensures
        final(out)@ == old(out)@ + int_text(v as int),
{
    if v < 0 {
        out.push('-');
        push_digits(out, (-(v as i128)) as u64);
        assert(out@ =~= old(out)@ + int_text(v as int));
    } else {
        push_digits(out, v as u64);
    }
}

fn push_bool(out: &mut Vec<char>, b: bool)
    ensures
        final(out)@ == old(out)@ + bool_text(b),
{
    if b {
        push_str(out, "true");
    } else {
        push_str(out, "false");
    }
}

fn push_fixed(out: &mut Vec<char>, v: i64)
    ensures
        final(out)@ == old(out)@ + fixed_text(v as int),
{
    let t = fixed_text_exec(v);
    push_chars(out, &t);
}

fn push_grid_position(out: &mut Vec<char>, p: &Position<i32>)
    ensures
        final(out)@ == old(out)@ + grid_position_text(*p),
{
    push_str(out, "Position: {x: ");
    push_int(out, p.x as i64);
    push_str(out, ", y: ");
    push_int(out, p.y as i64);
    push_str(out, ", angle: ");
    push_fixed(out, p.angle);
    push_str(out, "}");
    assert(out@ =~= old(out)@ + grid_position_text(*p));
}

fn push_real_position(out: &mut Vec<char>, p: &Position<i64>)
    ensures
        final(out)@ == old(out)@ + real_position_text(*p),
{
    push_str(out, "Position: {x: ");
    push_fixed(out, p.x);
    push_str(out, ", y: ");
    push_fixed(out, p.y);
    push_str(out, ", angle: ");
    push_fixed(out, p.angle);
    push_str(out, "}");
    assert(out@ =~= old(out)@ + real_position_text(*p));
}

fn push_token_score(out: &mut Vec<char>, t: &TokenScore)
    ensures
        final(out)@ == old(out)@ + token_score_text(*t),
{
    push_str(out, " Token(");
    push_str(out, t.token.as_str());
    push_str(out, "): Score(");
    push_digits(out, t.score as u64);
    push_str(out, ") ");
    assert(out@ =~= old(out)@ + token_score_text(*t));
}

fn push_score_board(out: &mut Vec<char>, b: &ScoreBoard)
    ensures
        final(out)@ == old(out)@ + score_board_text(*b),
{
    let ghost parts = b.scores@.map_values(|t: TokenScore| token_score_text(t) + ", \n"@);
    push_str(out, "[\n");
    let ghost start = out@;
    let mut i: usize = 0;
    while i < b.scores.len()
        invariant
            i <= b.scores@.len(),
            parts == b.scores@.map_values(|t: TokenScore| token_score_text(t) + ", \n"@),
            out@ == start + concat_all(parts.take(i as int)),
        decreases b.scores.len() - i,
    {
        push_token_score(out, &b.scores[i]);
        push_str(out, ", \n");
        proof {
            lemma_concat_all_take(parts, i as int);
        }
        assert(out@ =~= start + concat_all(parts.take(i + 1)));
        i = i + 1;
    }
    push_str(out, "]\n");
    assert(parts.take(parts.len() as int) =~= parts);
    assert(out@ =~= old(out)@ + score_board_text(*b));
}

fn push_wall(out: &mut Vec<char>, w: &Wall)
    ensures
        final(out)@ == old(out)@ + wall_text(*w),
{
    push_str(out, "Wall: { position: { x: ");
    push_int(out, w.x as i64);
    push_str(out, ", y: ");
    push_int(out, w.y as i64);
    push_str(out, ", angle: ");
    push_fixed(out, w.angle);
    push_str(out, "} }");
    assert(out@ =~= old(out)@ + wall_text(*w));
}

fn push_fence(out: &mut Vec<char>, f: &Fence)
    ensures
        final(out)@ == old(out)@ + fence_text(*f),
{
    push_str(out, "Fence: { position: ");
    push_grid_position(out, &f.position);
    push_str(out, ", health: ");
    push_digits(out, f.health as u64);
    push_str(out, " }");
    assert(out@ =~= old(out)@ + fence_text(*f));
}

fn push_bullet(out: &mut Vec<char>, b: &Bullet)
    ensures
        final(out)@ == old(out)@ + bullet_text(*b),
{
    push_str(out, "Bullet: { No: ");
    push_digits(out, b.id as u64);
    push_str(out, ", IsMissile: ");
    push_bool(out, b.is_missile);
    push_str(out, ", IsAntiArmor: ");
    push_bool(out, b.is_anti_armor);
    push_str(out, ", Position: ");
    push_real_position(out, &b.position);
    push_str(out, ", Speed: ");
    push_fixed(out, b.speed);
    push_str(out, ", Damage: ");
    push_fixed(out, b.damage);
    push_str(out, ", TraveledDistance: ");
    push_fixed(out, b.traveled_distance);
    push_str(out, " }");
    assert(out@ =~= old(out)@ + bullet_text(*b));
}

impl Position<i32> {
    /// `Position: {x: 3, y: -2, angle: 0.5}`.
    pub fn to_text(&self) -> (r: String)
        ensures
            r@ == grid_position_text(*self),
    {
        let mut out: Vec<char> = Vec::new();
        push_grid_position(&mut out, self);
        assert(out@ =~= grid_position_text(*self));
        string_of_chars(out)
    }
}

impl Position<i64> {
    /// `Position: {x: 3.0, y: 2.5, angle: 0.5}`.
    pub fn to_text(&self) -> (r: String)
        ensures
            r@ == real_position_text(*self),
    {
        let mut out: Vec<char> = Vec::new();
        push_real_position(&mut out, self);
        assert(out@ =~= real_position_text(*self));
        string_of_chars(out)
    }
}

impl TokenScore {
    pub fn to_text(&self) -> (r: String)
        ensures
            r@ == token_score_text(*self),
    {
        let mut out: Vec<char> = Vec::new();
        push_token_score(&mut out, self);
        assert(out@ =~= token_score_text(*self));
        string_of_chars(out)
    }
}

impl ScoreBoard {
    /// The entries, one per line, between brackets.
    pub fn to_text(&self) -> (r: String)
        ensures
            r@ == score_board_text(*self),
    {
        let mut out: Vec<char> = Vec::new();
        push_score_board(&mut out, self);
        assert(out@ =~= score_board_text(*self));
        string_of_chars(out)
    }
}

impl GameStatistics {
    pub fn to_text(&self) -> (r: String)
        ensures
            r@ == game_statistics_text(*self),
    {
        let mut out: Vec<char> = Vec::new();
        push_str(&mut out, "GameStatistics: { Stage: ");
        match self.current_stage {
            Stage::Rest => push_str(&mut out, "REST"),
            Stage::Battle => push_str(&mut out, "BATTLE"),
            Stage::End => push_str(&mut out, "END"),
        }
        push_str(&mut out, ", CountDown: ");
        push_digits(&mut out, self.count_down as u64);
        push_str(&mut out, ", Ticks: ");
        push_digits(&mut out, self.ticks as u64);
        push_str(&mut out, ", Scores: ");
        push_score_board(&mut out, &self.scores);
        push_str(&mut out, " }");
        assert(out@ =~= game_statistics_text(*self));
        string_of_chars(out)
    }
}

impl Wall {
    pub fn to_text(&self) -> (r: String)
        ensures
            r@ == wall_text(*self),
    {
        let mut out: Vec<char> = Vec::new();
        push_wall(&mut out, self);
        assert(out@ =~= wall_text(*self));
        string_of_chars(out)
    }
}

impl Fence {
    pub fn to_text(&self) -> (r: String)
        ensures
            r@ == fence_text(*self),
    {
        let mut out: Vec<char> = Vec::new();
        push_fence(&mut out, self);
        assert(out@ =~= fence_text(*self));
        string_of_chars(out)
    }
}

impl Bullet {
    pub fn to_text(&self) -> (r: String)
        ensures
            r@ == bullet_text(*self),
    {
        let mut out: Vec<char> = Vec::new();
        push_bullet(&mut out, self);
        assert(out@ =~= bullet_text(*self));
        string_of_chars(out)
    }
}

impl EnvironmentInfo {
    /// The map size, then every wall, fence and bullet, each followed by a
    /// comma.
    pub fn to_text(&self) -> (r: String)
        ensures
            r@ == environment_text(*self),
    {
        let ghost walls = self.walls@.map_values(|w: Wall| wall_text(w) + ", "@);
        let ghost fences = self.fences@.map_values(|f: Fence| fence_text(f) + ", "@);
        let ghost bullets = self.bullets@.map_values(|b: Bullet| bullet_text(b) + ", "@);
        let mut out: Vec<char> = Vec::new();
        push_str(&mut out, "EnvironmentInfo: { MapSize: ");
        push_digits(&mut out, self.map_size as u64);
        push_str(&mut out, ", Walls: [");
        let ghost start = out@;
        let mut i: usize = 0;
        while i < self.walls.len()
            invariant
                i <= self.walls@.len(),
                walls == self.walls@.map_values(|w: Wall| wall_text(w) + ", "@),
                out@ == start + concat_all(walls.take(i as int)),
            decreases self.walls.len() - i,
        {
            push_wall(&mut out, &self.walls[i]);
            push_str(&mut out, ", ");
            proof {
                lemma_concat_all_take(walls, i as int);
            }
            assert(out@ =~= start + concat_all(walls.take(i + 1)));
            i = i + 1;
        }
        assert(walls.take(walls.len() as int) =~= walls);
        push_str(&mut out, "], Fences: [");
        let ghost start = out@;
        let mut i: usize = 0;
        while i < self.fences.len()
            invariant
                i <= self.fences@.len(),
                fences == self.fences@.map_values(|f: Fence| fence_text(f) + ", "@),
                out@ == start + concat_all(fences.take(i as int)),
            decreases self.fences.len() - i,
        {
            push_fence(&mut out, &self.fences[i]);
            push_str(&mut out, ", ");
            proof {
                lemma_concat_all_take(fences, i as int);
            }
            assert(out@ =~= start + concat_all(fences.take(i + 1)));
            i = i + 1;
        }
        assert(fences.take(fences.len() as int) =~= fences);
        push_str(&mut out, "], Bullets: [");
        let ghost start = out@;
        let mut i: usize = 0;
        while i < self.bullets.len()
            invariant
                i <= self.bullets@.len(),
                bullets == self.bullets@.map_values(|b: Bullet| bullet_text(b) + ", "@),
                out@ == start + concat_all(bullets.take(i as int)),
            decreases self.bullets.len() - i,
        {
            push_bullet(&mut out, &self.bullets[i]);
            push_str(&mut out, ", ");
            proof {
                lemma_concat_all_take(bullets, i as int);
            }
            assert(out@ =~= start + concat_all(bullets.take(i + 1)));
            i = i + 1;
        }
        assert(bullets.take(bullets.len() as int) =~= bullets);
        push_str(&mut out, "] }");
        assert(out@ =~= environment_text(*self));
        string_of_chars(out)
    }
}

} // verus!
