//! The two players, their paddles, and the computer opponent.
//!
//! The opponent decides on a slow clock and acts on every frame. On each
//! decision it predicts where the ball will cross its paddle's line, aims
//! there (or, now and then, somewhere wrong), and holds that aim for a
//! bounded time.

use vstd::prelude::*;
use crate::ball::{Ball, Vec2};
use crate::num::{
    clamp, distance, div_toward_zero, lemma_div_toward_zero, lemma_magnitude_of_product,
    lemma_product_bound, lemma_quotient_bound, magnitude, magnitude_i32, saturate_i64,
    NANOS_PER_SECOND,
};
use crate::random::{random_below, random_bool};

verus! {

/// The number of equally likely outcomes of one roll: a chance is counted
/// in millionths.
pub const ROLL_RANGE: u32 = 1_000_000;

/// The shortest time, in nanoseconds, that the opponent holds one aim.
pub const MIN_MOVE_DURATION: u64 = 100_000_000;

/// The longest time, in nanoseconds, that the opponent holds one aim.
pub const MAX_MOVE_DURATION: u64 = 500_000_000;

/// How far from the centre line the opponent aims when it misreads the
/// ball altogether.
pub const MISS_TARGET: i64 = 2_000_000;

/// The two sides of the match.
#[derive(Clone, Copy, Debug, PartialEq, Eq, Structural)]
pub enum Player {
    /// The human player, on the left.
    P1,
    /// The computer opponent, on the right.
    P2,
}

/// Shape and motion of the paddles.
#[derive(Clone, Copy, Debug, PartialEq, Eq, Structural)]
pub struct PaddleConfig {
    /// Speed of a paddle, per second.
    pub speed: u32,
    /// Where the left paddle stands.
    pub left_x: i32,
    /// Where the right paddle stands.
    pub right_x: i32,
    /// Height of a paddle.
    pub height: u32,
    /// Depth of the curve of a paddle's face.
    pub curve_depth: u32,
    /// Number of pieces that the curved face is made of.
    pub segments: usize,
    /// Mass of a paddle, in millionths.
    pub mass: u32,
    /// Nanoseconds that a paddle stays forward after it struck the ball.
    pub punch_duration: u64,
    /// How far a paddle jumps forward when it strikes the ball.
    pub punch_distance: u32,
}

impl PaddleConfig {
    /// The paddles of the standard game.
    pub open spec fn standard() -> PaddleConfig {
        PaddleConfig {
            speed: 20_000_000,
            left_x: -7_650_000i32,
            right_x: 7_650_000,
            height: 2_000_000,
            curve_depth: 300_000,
            segments: 100,
            mass: 100_000,
            punch_duration: 50_000_000,
            punch_distance: 150_000,
        }
    }
}

impl Default for PaddleConfig {
    fn default() -> (config: PaddleConfig)
        ensures
            config == PaddleConfig::standard(),
    {
        PaddleConfig {
            speed: 20_000_000,
            left_x: -7_650_000,
            right_x: 7_650_000,
            height: 2_000_000,
            curve_depth: 300_000,
            segments: 100,
            mass: 100_000,
            punch_duration: 50_000_000,
            punch_distance: 150_000,
        }
    }
}

/// How well the computer opponent plays.
#[derive(Clone, Copy, Debug, PartialEq, Eq, Structural)]
pub struct AiConfig {
    /// Nanoseconds between two decisions.
    pub update_rate: u64,
    /// The opponent stays put while its aim is no further away than this.
    pub movement_deadzone: u32,
    /// How far off the paddle's centre the opponent means to strike.
    pub hit_point_offset: i32,
    /// Chance, in millionths, that a prediction is off.
    pub error_chance: u32,
    /// The most that a prediction may be off.
    pub max_error: u32,
    /// Chance, in millionths, that the opponent misreads the ball.
    pub miss_chance: u32,
}

impl AiConfig {
    /// A strong opponent that can still be beaten.
    pub open spec fn standard() -> AiConfig {
        AiConfig {
            update_rate: 300_000_000,
            movement_deadzone: 80_000,
            hit_point_offset: 400_000,
            error_chance: 120_000,
            max_error: 1_000_000,
            miss_chance: 50_000,
        }
    }
}

impl Default for AiConfig {
    fn default() -> (config: AiConfig)
        ensures
            config == AiConfig::standard(),
    {
        AiConfig {
            update_rate: 300_000_000,
            movement_deadzone: 80_000,
            hit_point_offset: 400_000,
            error_chance: 120_000,
            max_error: 1_000_000,
            miss_chance: 50_000,
        }
    }
}

/// The ball's horizontal motion carries it toward the line `x = paddle_x`.
pub open spec fn moving_toward(ball_pos: Vec2, ball_vel: Vec2, paddle_x: i32) -> bool {
    (paddle_x > ball_pos.x && ball_vel.x > 0) || (paddle_x < ball_pos.x && ball_vel.x < 0)
}

/// The height at which a ball on a straight path crosses the line
/// `x = paddle_x`. The vertical travel is rounded toward zero.
pub open spec fn intersection_y(ball_pos: Vec2, ball_vel: Vec2, paddle_x: i32) -> int
    recommends
        ball_vel.x != 0,
{
    ball_pos.y + div_toward_zero(ball_vel.y * (paddle_x - ball_pos.x), ball_vel.x as int)
}

/// Predicts where the ball will cross the paddle's line: the crossing of
/// its straight path when it moves toward the line, nothing when it does
/// not.
pub fn predict_intersection(ball_pos: Vec2, ball_vel: Vec2, paddle_x: i32) -> (predicted: Option<i64>)
    ensures
        predicted.is_some() == moving_toward(ball_pos, ball_vel, paddle_x),
        predicted matches Some(y) ==> y == intersection_y(ball_pos, ball_vel, paddle_x),
{
    let toward = (paddle_x > ball_pos.x && ball_vel.x > 0) || (paddle_x < ball_pos.x
        && ball_vel.x < 0);
    if !toward {
        return None;
    }
    let dx: u64 = distance(paddle_x as i64, ball_pos.x as i64);
    let vx: u64 = magnitude_i32(ball_vel.x) as u64;
    let vy: u64 = magnitude_i32(ball_vel.y) as u64;
    proof {
        let run = paddle_x - ball_pos.x;
        lemma_magnitude_of_product(ball_vel.y as int, run);
        lemma_product_bound(vy as nat, 0x8000_0000, dx as nat, 0xffff_ffff);
        if ball_vel.y >= 0 {
            lemma_product_bound(vy as nat, 0x7fff_ffff, dx as nat, 0xffff_ffff);
        }
        lemma_quotient_bound((vy * dx) as nat, vx as nat);
        assert(magnitude(ball_vel.y * run) == vy * dx);
        assert(ball_vel.y == 0 ==> vy * dx == 0) by (nonlinear_arith)
            requires
                ball_vel.y == 0 ==> vy == 0,
        ;
    }
    let travel: u64 = vy * dx / vx;
    let y: i64 = if ball_vel.y >= 0 {
        ball_pos.y as i64 + travel as i64
    } else {
        (ball_pos.y as i128 - travel as i128) as i64
    };
    Some(y)
}

/// The time, in nanoseconds, that a paddle at `speed` needs from
/// `current_pos` to `target_pos`, stretched by up to a tenth as `roll`
/// goes from nothing to `ROLL_RANGE`, and held within
/// `min_duration..=max_duration`. A paddle that cannot move takes the
/// longest time.
pub open spec fn movement_duration(
    current_pos: int,
    target_pos: int,
    speed: nat,
    min_duration: nat,
    max_duration: nat,
    roll: nat,
) -> int {
    if speed == 0 {
        max_duration as int
    } else {
        clamp(
            (magnitude(target_pos - current_pos) * NANOS_PER_SECOND * (10 * ROLL_RANGE + roll)) as int
                / (speed * (10 * ROLL_RANGE)) as int,
            min_duration as int,
            max_duration as int,
        )
    }
}

/// How long the opponent will hold its aim at `target_pos`: the travel
/// time at `speed`, stretched by the roll, within the two limits.
pub fn calculate_movement_duration(
    current_pos: i32,
    target_pos: i64,
    speed: u32,
    min_duration: u64,
    max_duration: u64,
    roll: u32,
) -> (duration: u64)
    requires
        min_duration <= max_duration,
    ensures
        duration == movement_duration(
            current_pos as int,
            target_pos as int,
            speed as nat,
            min_duration as nat,
            max_duration as nat,
            roll as nat,
        ),
{
    if speed == 0 {
        return max_duration;
    }
    let far: u64 = distance(target_pos, current_pos as i64);
    proof {
        lemma_product_bound(far as nat, 0xffff_ffff_ffff_ffff, NANOS_PER_SECOND as nat, 0x4000_0000);
        lemma_product_bound(
            (far * NANOS_PER_SECOND) as nat,
            0xffff_ffff_ffff_ffff * 0x4000_0000,
            (10 * ROLL_RANGE + roll) as nat,
            0x2_0000_0000,
        );
    }
    let stretched: u128 = far as u128 * NANOS_PER_SECOND as u128 * (10 * ROLL_RANGE as u128
        + roll as u128);
    let pace: u128 = speed as u128 * (10 * ROLL_RANGE as u128);
    let time: u128 = stretched / pace;
    if time < min_duration as u128 {
        min_duration
    } else if time > max_duration as u128 {
        max_duration
    } else {
        time as u64
    }
}

/// What the computer opponent is doing.
#[derive(Clone, Copy, Debug, PartialEq, Eq, Structural)]
pub enum MovementState {
    /// Standing still.
    Idle,
    /// Moving up toward `target` for `remaining` nanoseconds more.
    MovingUp { target: i64, remaining: u64 },
    /// Moving down toward `target` for `remaining` nanoseconds more.
    MovingDown { target: i64, remaining: u64 },
}

impl MovementState {
    /// The state after `delta` nanoseconds: a movement whose time has run
    /// out ends, one that has time left goes on with less of it.
    pub open spec fn ticked(self, delta: u64) -> MovementState {
        match self {
            MovementState::Idle => MovementState::Idle,
            MovementState::MovingUp { target, remaining } => if remaining <= delta {
                MovementState::Idle
            } else {
                MovementState::MovingUp { target, remaining: (remaining - delta) as u64 }
            },
            MovementState::MovingDown { target, remaining } => if remaining <= delta {
                MovementState::Idle
            } else {
                MovementState::MovingDown { target, remaining: (remaining - delta) as u64 }
            },
        }
    }

    /// Lets `delta` nanoseconds pass.
    pub fn tick(self, delta: u64) -> (next: MovementState)
        ensures
            next == self.ticked(delta),
    {
        match self {
            MovementState::Idle => MovementState::Idle,
            MovementState::MovingUp { target, remaining } => if remaining <= delta {
                MovementState::Idle
            } else {
                MovementState::MovingUp { target, remaining: remaining - delta }
            },
            MovementState::MovingDown { target, remaining } => if remaining <= delta {
                MovementState::Idle
            } else {
                MovementState::MovingDown { target, remaining: remaining - delta }
            },
        }
    }
}

/// The rolls that one decision of the opponent consumes. Each number is
/// meant to be drawn evenly from `0..ROLL_RANGE`.
#[derive(Clone, Copy, Debug, PartialEq, Eq, Structural)]
pub struct AiRolls {
    /// Below the chance of a miss, the opponent misreads the ball.
    pub miss: u32,
    /// Below the chance of an error, the prediction is off.
    pub error: u32,
    /// How much of the largest error the prediction is off by.
    pub error_amount: u32,
    /// The prediction is off upward, not downward.
    pub error_up: bool,
    /// By how much of a tenth the movement's time is stretched.
    pub jitter: u32,
}

impl AiRolls {
    /// Every number lies in `0..ROLL_RANGE`.
    pub open spec fn in_range(self) -> bool {
        &&& self.miss < ROLL_RANGE
        &&& self.error < ROLL_RANGE
        &&& self.error_amount < ROLL_RANGE
        &&& self.jitter < ROLL_RANGE
    }

    /// Rolls under which the opponent reads the ball perfectly whatever
    /// its configuration: no miss, no error, no stretch.
    pub open spec fn steady() -> AiRolls {
        AiRolls { miss: u32::MAX, error: u32::MAX, error_amount: 0, error_up: false, jitter: 0 }
    }

    /// Draws the rolls of one decision.
    pub fn draw() -> (rolls: AiRolls)
        ensures
            rolls.in_range(),
    {
        let miss: u32 = random_below(ROLL_RANGE);
        let error: u32 = random_below(ROLL_RANGE);
        let error_amount: u32 = random_below(ROLL_RANGE);
        let error_up = random_bool();
        let jitter: u32 = random_below(ROLL_RANGE);
        AiRolls { miss, error, error_amount, error_up, jitter }
    }
}

/// The height that the opponent aims for, given its prediction.
///
/// On a miss it aims `MISS_TARGET` away from the centre line, on the side
/// where the ball will not be. Otherwise it aims at the prediction, moved
/// by the error that the rolls call for, and by the hit point offset
/// against the ball's vertical motion. The aim is held within the range of
/// `i64`.
pub open spec fn chosen_target(
    ai_config: AiConfig,
    predicted_y: i64,
    ball_vel_y: i32,
    rolls: AiRolls,
) -> int {
    if rolls.miss < ai_config.miss_chance {
        if predicted_y > 0 {
            -MISS_TARGET
        } else {
            MISS_TARGET as int
        }
    } else {
        let error: int = if rolls.error < ai_config.error_chance {
            let amount = (rolls.error_amount * ai_config.max_error) / (ROLL_RANGE as int);
            if rolls.error_up {
                amount
            } else {
                -amount
            }
        } else {
            0
        };
        let offset: int = if ball_vel_y > 0 {
            -ai_config.hit_point_offset
        } else {
            ai_config.hit_point_offset as int
        };
        clamp(predicted_y + error + offset, i64::MIN as int, i64::MAX as int)
    }
}

/// Picks the height to aim for.
pub fn choose_target(ai_config: &AiConfig, predicted_y: i64, ball_vel_y: i32, rolls: AiRolls) -> (target: i64)
    ensures
        target == chosen_target(*ai_config, predicted_y, ball_vel_y, rolls),
{
    if rolls.miss < ai_config.miss_chance {
        if predicted_y > 0 {
            -MISS_TARGET
        } else {
            MISS_TARGET
        }
    } else {
        let error: i128 = if rolls.error < ai_config.error_chance {
            proof {
                lemma_product_bound(
                    rolls.error_amount as nat,
                    0xffff_ffff,
                    ai_config.max_error as nat,
                    0xffff_ffff,
                );
            }
            let amount: u64 = rolls.error_amount as u64 * ai_config.max_error as u64
                / ROLL_RANGE as u64;
            if rolls.error_up {
                amount as i128
            } else {
                -(amount as i128)
            }
        } else {
            0
        };
        let offset: i128 = if ball_vel_y > 0 {
            -(ai_config.hit_point_offset as i128)
        } else {
            ai_config.hit_point_offset as i128
        };
        saturate_i64(predicted_y as i128 + error + offset)
    }
}

/// The movement that follows a decision to aim at `target`: none new
/// within the deadzone; else up or down toward the aim, for the travel
/// time stretched by `jitter`.
pub open spec fn armed(
    state: MovementState,
    paddle_y: i32,
    target: i64,
    speed: u32,
    deadzone: u32,
    jitter: u32,
) -> MovementState {
    if magnitude(target - paddle_y) > deadzone {
        let remaining = movement_duration(
            paddle_y as int,
            target as int,
            speed as nat,
            MIN_MOVE_DURATION as nat,
            MAX_MOVE_DURATION as nat,
            jitter as nat,
        ) as u64;
        if target > paddle_y {
            MovementState::MovingUp { target, remaining }
        } else {
            MovementState::MovingDown { target, remaining }
        }
    } else {
        state
    }
}

/// Starts the movement toward `target`, unless the paddle is close enough.
pub fn arm(
    state: MovementState,
    paddle_y: i32,
    target: i64,
    speed: u32,
    deadzone: u32,
    jitter: u32,
) -> (next: MovementState)
    ensures
        next == armed(state, paddle_y, target, speed, deadzone, jitter),
{
    if distance(target, paddle_y as i64) > deadzone as u64 {
        let remaining = calculate_movement_duration(
            paddle_y,
            target,
            speed,
            MIN_MOVE_DURATION,
            MAX_MOVE_DURATION,
            jitter,
        );
        if target > paddle_y as i64 {
            MovementState::MovingUp { target, remaining }
        } else {
            MovementState::MovingDown { target, remaining }
        }
    } else {
        state
    }
}

/// The computer opponent's mind: its decision clock, what it is doing,
/// and what it last predicted.
#[derive(Clone, Copy, Debug, PartialEq, Eq, Structural)]
pub struct AiPaddle {
    /// Nanoseconds since the last decision.
    pub update_elapsed: u64,
    /// Nanoseconds between two decisions.
    pub update_period: u64,
    /// The movement in progress.
    pub movement_state: MovementState,
    /// Where the ball was last predicted to cross the paddle's line.
    pub last_prediction: Option<i64>,
}

impl AiPaddle {
    /// An opponent at rest that decides every `update_period` nanoseconds.
    pub open spec fn resting(update_period: u64) -> AiPaddle {
        AiPaddle {
            update_elapsed: 0,
            update_period,
            movement_state: MovementState::Idle,
            last_prediction: None,
        }
    }

    /// An opponent at rest that decides every `update_period` nanoseconds.
    pub fn new(update_period: u64) -> (ai: AiPaddle)
        ensures
            ai == AiPaddle::resting(update_period),
    {
        AiPaddle {
            update_elapsed: 0,
            update_period,
            movement_state: MovementState::Idle,
            last_prediction: None,
        }
    }

    /// A decision falls due within the next `delta` nanoseconds.
    pub open spec fn decision_due(self, delta: u64) -> bool {
        self.update_elapsed + delta >= self.update_period
    }

    /// The decision clock after `delta` nanoseconds: it runs on, and
    /// starts over each time a period is complete.
    pub open spec fn clock_after(self, delta: u64) -> int {
        let total = self.update_elapsed + delta;
        if total < self.update_period {
            total
        } else if self.update_period == 0 {
            0
        } else {
            total % (self.update_period as int)
        }
    }

    /// The opponent after a frame of `delta` nanoseconds.
    ///
    /// The movement in progress runs down first. Then, if a decision falls
    /// due, a ball is in play and it moves toward the right paddle's line,
    /// the opponent predicts the crossing, picks its aim and starts to
    /// move. Otherwise it only keeps its clock.
    pub open spec fn decided(
        self,
        delta: u64,
        paddle_config: PaddleConfig,
        ai_config: AiConfig,
        ball: Option<Ball>,
        paddle_y: i32,
        rolls: AiRolls,
    ) -> AiPaddle {
        let state = self.movement_state.ticked(delta);
        let clock = self.clock_after(delta) as u64;
        if self.decision_due(delta) && ball.is_some() && moving_toward(
            ball.unwrap().position,
            ball.unwrap().velocity,
            paddle_config.right_x,
        ) {
            let predicted = intersection_y(
                ball.unwrap().position,
                ball.unwrap().velocity,
                paddle_config.right_x,
            ) as i64;
            let target = chosen_target(ai_config, predicted, ball.unwrap().velocity.y, rolls) as i64;
            AiPaddle {
                update_elapsed: clock,
                update_period: self.update_period,
                movement_state: armed(
                    state,
                    paddle_y,
                    target,
                    paddle_config.speed,
                    ai_config.movement_deadzone,
                    rolls.jitter,
                ),
                last_prediction: Some(predicted),
            }
        } else {
            AiPaddle {
                update_elapsed: clock,
                update_period: self.update_period,
                movement_state: state,
                last_prediction: self.last_prediction,
            }
        }
    }

    /// Advances the decision clock by `delta` nanoseconds and says whether
    /// a decision fell due.
    pub fn tick_clock(&mut self, delta: u64) -> (due: bool)
        ensures
            due == old(self).decision_due(delta),
            final(self).update_elapsed == old(self).clock_after(delta),
            final(self).update_period == old(self).update_period,
            final(self).movement_state == old(self).movement_state,
            final(self).last_prediction == old(self).last_prediction,
    {
        let total: u128 = self.update_elapsed as u128 + delta as u128;
        if total < self.update_period as u128 {
            self.update_elapsed = total as u64;
            false
        } else {
            if self.update_period == 0 {
                self.update_elapsed = 0;
            } else {
                self.update_elapsed = (total % self.update_period as u128) as u64;
            }
            true
        }
    }
}

impl Default for AiPaddle {
    fn default() -> (ai: AiPaddle)
        ensures
            ai == AiPaddle::resting(AiConfig::standard().update_rate),
    {
        AiPaddle::new(AiConfig::default().update_rate)
    }
}

/// One frame of the opponent's mind, with the rolls given.
pub fn ai_decide(
    ai: &mut AiPaddle,
    delta: u64,
    paddle_config: &PaddleConfig,
    ai_config: &AiConfig,
    ball: Option<Ball>,
    paddle_y: i32,
    rolls: AiRolls,
)
    ensures
        *final(ai) == old(ai).decided(delta, *paddle_config, *ai_config, ball, paddle_y, rolls),
{
    ai.movement_state = ai.movement_state.tick(delta);
    if ai.tick_clock(delta) {
        if let Some(ball) = ball {
            if let Some(predicted_y) = predict_intersection(
                ball.position,
                ball.velocity,
                paddle_config.right_x,
            ) {
                let target = choose_target(ai_config, predicted_y, ball.velocity.y, rolls);
                ai.movement_state = arm(
                    ai.movement_state,
                    paddle_y,
                    target,
                    paddle_config.speed,
                    ai_config.movement_deadzone,
                    rolls.jitter,
                );
                ai.last_prediction = Some(predicted_y);
            }
        }
    }
}

/// One frame of the opponent's mind, with rolls drawn for it: what
/// `ai_decide` does for some rolls in range.
pub fn ai_decision_making(
    ai: &mut AiPaddle,
    delta: u64,
    paddle_config: &PaddleConfig,
    ai_config: &AiConfig,
    ball: Option<Ball>,
    paddle_y: i32,
)
    ensures
        exists|rolls: AiRolls|
            rolls.in_range() && *final(ai) == #[trigger] old(ai).decided(
                delta,
                *paddle_config,
                *ai_config,
                ball,
                paddle_y,
                rolls,
            ),
{
    let rolls = AiRolls::draw();
    ai_decide(ai, delta, paddle_config, ai_config, ball, paddle_y, rolls);
}

/// The keys that steer the human player's paddle.
#[derive(Clone, Copy, Debug, PartialEq, Eq, Structural)]
pub struct PaddleInput {
    /// A key for "up" is held.
    pub up: bool,
    /// A key for "down" is held.
    pub down: bool,
}

/// How far a paddle at `speed` gets in `delta` nanoseconds, held within
/// the range of a coordinate.
pub open spec fn move_amount(speed: u32, delta: u64) -> int {
    clamp((speed * delta) / (NANOS_PER_SECOND as int), 0, i32::MAX as int)
}

/// The vertical step that a paddle wants to take in one frame.
///
/// The human paddle follows the keys; both keys together cancel. The
/// opponent's paddle steps toward its aim while a movement is in progress
/// and the aim is not reached. Any other pairing stays put.
pub open spec fn movement_intent(
    player: Player,
    ai: Option<AiPaddle>,
    input: PaddleInput,
    amount: int,
    paddle_y: i32,
) -> int {
    match (player, ai) {
        (Player::P1, None) => (if input.up { amount } else { 0 }) - (if input.down { amount } else { 0 }),
        (Player::P2, Some(mind)) => match mind.movement_state {
            MovementState::MovingUp { target, remaining } => if paddle_y < target { amount } else { 0 },
            MovementState::MovingDown { target, remaining } => if paddle_y > target { -amount } else { 0 },
            MovementState::Idle => 0,
        },
        _ => 0,
    }
}

/// The step that a paddle takes in a frame of `delta` nanoseconds.
pub fn paddle_movement(
    config: &PaddleConfig,
    input: PaddleInput,
    delta: u64,
    player: Player,
    ai: Option<AiPaddle>,
    paddle_y: i32,
) -> (translation: Vec2)
    ensures
        translation.x == 0,
        translation.y == movement_intent(
            player,
            ai,
            input,
            move_amount(config.speed, delta),
            paddle_y,
        ),
{
    proof {
        lemma_product_bound(config.speed as nat, 0xffff_ffff, delta as nat, 0xffff_ffff_ffff_ffff);
    }
    let reach: u128 = config.speed as u128 * delta as u128 / NANOS_PER_SECOND as u128;
    let amount: i32 = if reach > i32::MAX as u128 { i32::MAX } else { reach as i32 };
    let mut y: i32 = 0;
    match (player, ai) {
        (Player::P1, None) => {
            if input.up {
                y = y + amount;
            }
            if input.down {
                y = y - amount;
            }
        },
        (Player::P2, Some(mind)) => {
            match mind.movement_state {
                MovementState::MovingUp { target, remaining } => {
                    if (paddle_y as i64) < target {
                        y = amount;
                    }
                },
                MovementState::MovingDown { target, remaining } => {
                    if (paddle_y as i64) > target {
                        y = -amount;
                    }
                },
                MovementState::Idle => {},
            }
        },
        _ => {},
    }
    Vec2 { x: 0, y }
}

/// A ball that moves away from the opponent's line, or along it, is left
/// alone: the frame brings no prediction and no new movement, whatever
/// the rolls, and an opponent at rest takes no step.
pub proof fn law_ball_moving_away_is_ignored(
    ai: AiPaddle,
    delta: u64,
    paddle_config: PaddleConfig,
    ai_config: AiConfig,
    ball: Ball,
    paddle_y: i32,
    rolls: AiRolls,
)
    requires
        !moving_toward(ball.position, ball.velocity, paddle_config.right_x),
    ensures
        ({
            let next = ai.decided(delta, paddle_config, ai_config, Some(ball), paddle_y, rolls);
            &&& next.movement_state == ai.movement_state.ticked(delta)
            &&& next.last_prediction == ai.last_prediction
            &&& ai.movement_state == MovementState::Idle ==> forall|input: PaddleInput, amount: int|
                #[trigger] movement_intent(Player::P2, Some(next), input, amount, paddle_y) == 0
        }),
{
}

/// The predicted crossing lies on the ball's straight path, up to the
/// rounding of one coordinate: the rise from the ball to the crossing is
/// to the run as the vertical speed is to the horizontal one, and the
/// cross product of the two is smaller than the horizontal speed.
pub proof fn law_prediction_lies_on_the_path(ball_pos: Vec2, ball_vel: Vec2, paddle_x: i32)
    requires
        moving_toward(ball_pos, ball_vel, paddle_x),
    ensures
        ({
            let rise = intersection_y(ball_pos, ball_vel, paddle_x) - ball_pos.y;
            let run = paddle_x - ball_pos.x;
            magnitude(ball_vel.y * run - rise * ball_vel.x) < magnitude(ball_vel.x as int)
        }),
{
    lemma_div_toward_zero(ball_vel.y * (paddle_x - ball_pos.x), ball_vel.x as int);
}

/// With steady rolls the opponent aims at its prediction, moved only by
/// the hit point offset against the ball's vertical motion.
pub proof fn law_steady_rolls_aim_at_prediction(
    ai_config: AiConfig,
    predicted_y: i64,
    ball_vel_y: i32,
)
    ensures
        chosen_target(ai_config, predicted_y, ball_vel_y, AiRolls::steady()) == clamp(
            predicted_y + (if ball_vel_y > 0 {
                -ai_config.hit_point_offset
            } else {
                ai_config.hit_point_offset as int
            }),
            i64::MIN as int,
            i64::MAX as int,
        ),
{
}

} // verus!
