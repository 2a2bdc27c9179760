//! Score keeping: points, serve rotation, the pause before a serve, and
//! the test for a won match.

use vstd::prelude::*;
use crate::ball::{create_ball, served_ball, Ball};
use crate::board::Wall;
use crate::player::Player;
use crate::random::random_ratio;

verus! {

/// Nanoseconds between a point and the serve that follows it.
pub const SERVE_DELAY: u64 = 750_000_000;

/// Both sides have ten points or more: the server changes on every point.
pub open spec fn in_deuce(p1: nat, p2: nat) -> bool {
    p1 >= 10 && p2 >= 10
}

/// The number of points after which the serve changes hands.
pub open spec fn switch_threshold(p1: nat, p2: nat) -> nat {
    if in_deuce(p1, p2) { 1 } else { 2 }
}

/// The side with `mine` points has beaten the side with `theirs`: eleven
/// points at least, and two more than the other side.
pub open spec fn side_has_won(mine: nat, theirs: nat) -> bool {
    mine >= 11 && mine >= theirs + 2
}

/// One of the two sides has won.
pub open spec fn is_match_won(p1: nat, p2: nat) -> bool {
    side_has_won(p1, p2) || side_has_won(p2, p1)
}

/// A counter one higher, or unchanged where the machine cannot count on.
pub open spec fn bumped(points: u32) -> u32 {
    if points < u32::MAX { (points + 1) as u32 } else { points }
}

/// The state of the match's score.
#[derive(Clone, Copy, Debug, PartialEq, Eq, Structural)]
pub struct Score {
    /// Points of player one.
    pub p1: u32,
    /// Points of player two.
    pub p2: u32,
    /// Player one serves next.
    pub server_is_p1: bool,
    /// Points played since the serve last changed hands.
    pub serve_count: u32,
    /// Nanoseconds left until the pending serve.
    pub serve_delay_remaining: u64,
    /// A serve is pending: no ball is in play.
    pub should_serve: bool,
}

impl Score {
    /// The counter of points since the last change of server is below the
    /// threshold that the points call for, and the countdown is within the
    /// delay.
    pub open spec fn wf(self) -> bool {
        &&& self.serve_count < switch_threshold(self.p1 as nat, self.p2 as nat)
        &&& self.serve_delay_remaining <= SERVE_DELAY
    }

    /// The score at the start of a match with the given first server.
    pub open spec fn fresh(server_is_p1: bool) -> Score {
        Score {
            p1: 0,
            p2: 0,
            server_is_p1,
            serve_count: 0,
            serve_delay_remaining: SERVE_DELAY,
            should_serve: false,
        }
    }

    /// The score after one more point, with the serve rotated.
    pub open spec fn after_point(self, p1_scored: bool) -> Score {
        let p1 = if p1_scored { bumped(self.p1) } else { self.p1 };
        let p2 = if p1_scored { self.p2 } else { bumped(self.p2) };
        let switch = self.serve_count + 1 >= switch_threshold(p1 as nat, p2 as nat);
        Score {
            p1,
            p2,
            server_is_p1: if switch { !self.server_is_p1 } else { self.server_is_p1 },
            serve_count: if switch { 0 } else { (self.serve_count + 1) as u32 },
            serve_delay_remaining: self.serve_delay_remaining,
            should_serve: self.should_serve,
        }
    }

    /// The score after a point that ends the rally: the point is counted,
    /// the serve rotated, and a serve is pending after the full delay.
    pub open spec fn awarded(self, side: Player) -> Score {
        Score {
            serve_delay_remaining: SERVE_DELAY,
            should_serve: true,
            ..self.after_point(side == Player::P1)
        }
    }

    /// Tests whether the score is well formed.
    pub fn is_well_formed(&self) -> (ok: bool)
        ensures
            ok == self.wf(),
    {
        let threshold: u32 = if self.p1 >= 10 && self.p2 >= 10 { 1 } else { 2 };
        self.serve_count < threshold && self.serve_delay_remaining <= SERVE_DELAY
    }

    /// A match at nil-nil with the given first server.
    pub fn with_server(server_is_p1: bool) -> (score: Score)
        ensures
            score == Score::fresh(server_is_p1),
            score.wf(),
    {
        Score {
            p1: 0,
            p2: 0,
            server_is_p1,
            serve_count: 0,
            serve_delay_remaining: SERVE_DELAY,
            should_serve: false,
        }
    }

    /// A match at nil-nil whose first server is drawn by a coin.
    pub fn new() -> (score: Score)
        ensures
            score == Score::fresh(score.server_is_p1),
            score.wf(),
    {
        Score::with_server(random_ratio(1, 2))
    }

    /// Counts a point and rotates the serve: it changes hands after two
    /// points, and after every point once both sides have ten.
    pub fn add_point(&mut self, p1_scored: bool)
        requires
            old(self).wf(),
        ensures
            *final(self) == old(self).after_point(p1_scored),
            final(self).wf(),
    {
        if p1_scored {
            self.p1 = self.p1.saturating_add(1);
        } else {
            self.p2 = self.p2.saturating_add(1);
        }
        self.serve_count = self.serve_count + 1;
        let deuce = self.p1 >= 10 && self.p2 >= 10;
        let threshold: u32 = if deuce { 1 } else { 2 };
        if self.serve_count >= threshold {
            self.server_is_p1 = !self.server_is_p1;
            self.serve_count = 0;
        }
    }

    /// Awards the rally to `side`: counts the point, rotates the serve, and
    /// schedules the next serve after the full delay.
    pub fn award_point(&mut self, side: Player)
        requires
            old(self).wf(),
        ensures
            *final(self) == old(self).awarded(side),
            final(self).wf(),
    {
        let p1_scored = match side {
            Player::P1 => true,
            Player::P2 => false,
        };
        self.add_point(p1_scored);
        self.should_serve = true;
        self.serve_delay_remaining = SERVE_DELAY;
    }

    /// Whether one side has won: eleven points or more, and a lead of two.
    pub fn check_victory(&self) -> (won: bool)
        ensures
            won == is_match_won(self.p1 as nat, self.p2 as nat),
    {
        if self.p1 >= 11 && self.p1 >= self.p2 && self.p1 - self.p2 >= 2 {
            return true;
        }
        if self.p2 >= 11 && self.p2 >= self.p1 && self.p2 - self.p1 >= 2 {
            return true;
        }
        false
    }

    /// Starts a new match with the given first server.
    pub fn reset_with(&mut self, server_is_p1: bool)
        ensures
            *final(self) == Score::fresh(server_is_p1),
            final(self).wf(),
    {
        self.p1 = 0;
        self.p2 = 0;
        self.server_is_p1 = server_is_p1;
        self.serve_count = 0;
        self.serve_delay_remaining = SERVE_DELAY;
        self.should_serve = false;
    }

    /// Starts a new match whose first server is drawn by a coin.
    pub fn reset(&mut self)
        ensures
            *final(self) == Score::fresh(final(self).server_is_p1),
            final(self).wf(),
    {
        self.reset_with(random_ratio(1, 2));
    }
}

impl Score {
    /// The pending serve falls due within the next `delta` nanoseconds.
    pub open spec fn serve_due(self, delta: u64) -> bool {
        self.should_serve && self.serve_delay_remaining <= delta
    }

    /// The score after `delta` nanoseconds: while a serve is pending its
    /// countdown runs down, and when it runs out the serve is no longer
    /// pending and the countdown stands at the full delay again. With no
    /// serve pending nothing changes.
    pub open spec fn after_delay(self, delta: u64) -> Score {
        if !self.should_serve {
            self
        } else if self.serve_delay_remaining <= delta {
            Score { serve_delay_remaining: SERVE_DELAY, should_serve: false, ..self }
        } else {
            Score { serve_delay_remaining: (self.serve_delay_remaining - delta) as u64, ..self }
        }
    }

    /// The score after rallies won by the sides in `sides`, in their
    /// order.
    pub open spec fn after_awards(self, sides: Seq<Player>) -> Score
        decreases sides.len(),
    {
        if sides.len() == 0 {
            self
        } else {
            self.after_awards(sides.drop_last()).awarded(sides.last())
        }
    }

    /// The score after frames of the lengths in `deltas`, in their order.
    pub open spec fn after_delays(self, deltas: Seq<u64>) -> Score
        decreases deltas.len(),
    {
        if deltas.len() == 0 {
            self
        } else {
            self.after_delays(deltas.drop_last()).after_delay(deltas.last())
        }
    }
}

/// Lets `delta` nanoseconds of the pause before a serve pass. When the
/// pause runs out, the ball is put in play for the server and returned.
pub fn handle_serve_delay(score: &mut Score, delta: u64) -> (served: Option<Ball>)
    ensures
        *final(score) == old(score).after_delay(delta),
        served == (if old(score).serve_due(delta) {
            Some(served_ball(old(score).server_is_p1))
        } else {
            None
        }),
        old(score).wf() ==> final(score).wf(),
{
    if !score.should_serve {
        return None;
    }
    if score.serve_delay_remaining <= delta {
        score.should_serve = false;
        score.serve_delay_remaining = SERVE_DELAY;
        Some(create_ball(score.server_is_p1))
    } else {
        score.serve_delay_remaining = score.serve_delay_remaining - delta;
        None
    }
}

/// Two things have begun to touch. Each is named by its handle.
#[derive(Clone, Copy, Debug, PartialEq, Eq, Structural)]
pub struct Collision {
    pub first: u64,
    pub second: u64,
}

impl Collision {
    /// `entity` is one of the two.
    pub open spec fn touches(self, entity: u64) -> bool {
        entity == self.first || entity == self.second
    }

    /// The same collision with its two slots exchanged.
    pub open spec fn swapped(self) -> Collision {
        Collision { first: self.second, second: self.first }
    }
}

/// A wall of the board under its handle.
#[derive(Clone, Copy, Debug, PartialEq, Eq, Structural)]
pub struct WallEntity {
    pub entity: u64,
    pub wall: Wall,
}

/// The first ball from position `from` on that takes part in `collision`.
pub open spec fn ball_in(balls: Seq<u64>, collision: Collision, from: int) -> Option<u64>
    decreases balls.len() - from,
{
    if from < 0 || from >= balls.len() {
        None
    } else if collision.touches(balls[from]) {
        Some(balls[from])
    } else {
        ball_in(balls, collision, from + 1)
    }
}

/// The first wall from position `from` on that takes part in `collision`.
pub open spec fn wall_in(walls: Seq<WallEntity>, collision: Collision, from: int) -> Option<Wall>
    decreases walls.len() - from,
{
    if from < 0 || from >= walls.len() {
        None
    } else if collision.touches(walls[from].entity) {
        Some(walls[from].wall)
    } else {
        wall_in(walls, collision, from + 1)
    }
}

/// What a collision means to the score: the ball that leaves the board
/// and the side that scores, where a ball met the left or the right wall;
/// nothing for any other pair.
pub open spec fn resolved(collision: Collision, balls: Seq<u64>, walls: Seq<WallEntity>) -> Option<
    (u64, Player),
> {
    match (ball_in(balls, collision, 0), wall_in(walls, collision, 0)) {
        (Some(ball), Some(wall)) => match wall.scorer() {
            Some(side) => Some((ball, side)),
            None => None,
        },
        _ => None,
    }
}

/// The score after the collisions in `collisions`, in their order.
pub open spec fn score_after(
    score: Score,
    collisions: Seq<Collision>,
    balls: Seq<u64>,
    walls: Seq<WallEntity>,
) -> Score
    decreases collisions.len(),
{
    if collisions.len() == 0 {
        score
    } else {
        let before = score_after(score, collisions.drop_last(), balls, walls);
        match resolved(collisions.last(), balls, walls) {
            Some((ball, side)) => before.awarded(side),
            None => before,
        }
    }
}

/// The balls that leave the board on the collisions in `collisions`, one
/// for each point, in their order.
pub open spec fn despawned_after(
    collisions: Seq<Collision>,
    balls: Seq<u64>,
    walls: Seq<WallEntity>,
) -> Seq<u64>
    decreases collisions.len(),
{
    if collisions.len() == 0 {
        Seq::empty()
    } else {
        let before = despawned_after(collisions.drop_last(), balls, walls);
        match resolved(collisions.last(), balls, walls) {
            Some((ball, side)) => before.push(ball),
            None => before,
        }
    }
}

/// Finds the ball that takes part in `collision`.
fn find_ball(balls: &Vec<u64>, collision: Collision) -> (found: Option<u64>)
    ensures
        found == ball_in(balls@, collision, 0),
{
    let mut i: usize = 0;
    while i < balls.len()
        invariant
            i <= balls.len(),
            ball_in(balls@, collision, 0) == ball_in(balls@, collision, i as int),
        decreases balls.len() - i,
    {
        let ball = balls[i];
        if ball == collision.first || ball == collision.second {
            return Some(ball);
        }
        i += 1;
    }
    None
}

/// Finds the wall that takes part in `collision`.
fn find_wall(walls: &Vec<WallEntity>, collision: Collision) -> (found: Option<Wall>)
    ensures
        found == wall_in(walls@, collision, 0),
{
    let mut i: usize = 0;
    while i < walls.len()
        invariant
            i <= walls.len(),
            wall_in(walls@, collision, 0) == wall_in(walls@, collision, i as int),
        decreases walls.len() - i,
    {
        let entry = walls[i];
        if entry.entity == collision.first || entry.entity == collision.second {
            return Some(entry.wall);
        }
        i += 1;
    }
    None
}

/// Says what one collision means to the score.
pub fn resolve_collision(collision: Collision, balls: &Vec<u64>, walls: &Vec<WallEntity>) -> (outcome:
    Option<(u64, Player)>)
    ensures
        outcome == resolved(collision, balls@, walls@),
{
    match (find_ball(balls, collision), find_wall(walls, collision)) {
        (Some(ball), Some(wall)) => match wall.scoring_side() {
            Some(side) => Some((ball, side)),
            None => None,
        },
        _ => None,
    }
}

/// Turns the collisions of one frame into points: for each collision of a
/// ball with the left or the right wall, the point is awarded to the
/// other side and the ball is listed to leave the board. Every other
/// collision is passed over.
pub fn handle_scoring(
    score: &mut Score,
    collisions: &Vec<Collision>,
    balls: &Vec<u64>,
    walls: &Vec<WallEntity>,
) -> (despawned: Vec<u64>)
    requires
        old(score).wf(),
    ensures
        *final(score) == score_after(*old(score), collisions@, balls@, walls@),
        despawned@ == despawned_after(collisions@, balls@, walls@),
        final(score).wf(),
{
    let mut despawned: Vec<u64> = Vec::new();
    let mut i: usize = 0;
    while i < collisions.len()
        invariant
            i <= collisions.len(),
            score.wf(),
            *score == score_after(*old(score), collisions@.take(i as int), balls@, walls@),
            despawned@ == despawned_after(collisions@.take(i as int), balls@, walls@),
        decreases collisions.len() - i,
    {
        let collision = collisions[i];
        proof {
            let next = collisions@.take(i + 1);
            assert(next.drop_last() == collisions@.take(i as int));
            assert(next.last() == collision);
        }
        match resolve_collision(collision, balls, walls) {
            Some((ball, side)) => {
                score.award_point(side);
                despawned.push(ball);
            },
            None => {},
        }
        i += 1;
    }
    proof {
        assert(collisions@.take(collisions.len() as int) == collisions@);
    }
    despawned
}

/// In normal play the serve changes hands every two points: as long as
/// one side has fewer than ten points, the count of points since the last
/// change is the number of points played modulo two, and the first server
/// serves again whenever the number of pairs played is even.
pub proof fn law_serve_changes_every_two_points(first_server_is_p1: bool, sides: Seq<Player>)
    requires
        ({
            let end = Score::fresh(first_server_is_p1).after_awards(sides);
            !in_deuce(end.p1 as nat, end.p2 as nat)
        }),
    ensures
        ({
            let end = Score::fresh(first_server_is_p1).after_awards(sides);
            &&& end.wf()
            &&& end.serve_count == sides.len() % 2
            &&& end.server_is_p1 == (first_server_is_p1 == ((sides.len() / 2) % 2 == 0))
        }),
    decreases sides.len(),
{
    if sides.len() > 0 {
        law_serve_changes_every_two_points(first_server_is_p1, sides.drop_last());
    }
}

/// Once both sides have ten points, every point changes the server, and
/// the match stays in deuce.
pub proof fn law_serve_changes_every_point_in_deuce(score: Score, side: Player)
    requires
        score.wf(),
        in_deuce(score.p1 as nat, score.p2 as nat),
    ensures
        ({
            let next = score.awarded(side);
            &&& next.server_is_p1 == !score.server_is_p1
            &&& next.serve_count == 0
            &&& in_deuce(next.p1 as nat, next.p2 as nat)
            &&& next.wf()
        }),
{
}

/// The points keep the score well formed, whatever their order, and take
/// no point away from either side.
pub proof fn law_points_keep_the_score_well_formed(score: Score, sides: Seq<Player>)
    requires
        score.wf(),
    ensures
        score.after_awards(sides).wf(),
        score.after_awards(sides).p1 >= score.p1,
        score.after_awards(sides).p2 >= score.p2,
    decreases sides.len(),
{
    if sides.len() > 0 {
        law_points_keep_the_score_well_formed(score, sides.drop_last());
    }
}

/// No match is won below eleven points or without a lead of two; it is
/// won as soon as a side has eleven points and a lead of two; and the two
/// sides never win together.
pub proof fn law_match_is_won_by_one_side(p1: nat, p2: nat)
    ensures
        p1 < 11 && p2 < 11 ==> !is_match_won(p1, p2),
        p1 - p2 < 2 && p2 - p1 < 2 ==> !is_match_won(p1, p2),
        p1 >= 11 && p1 - p2 >= 2 ==> is_match_won(p1, p2),
        p2 >= 11 && p2 - p1 >= 2 ==> is_match_won(p1, p2),
        !(side_has_won(p1, p2) && side_has_won(p2, p1)),
{
}

/// A new match stays as it is while nothing happens: however many frames
/// pass, of whatever length, the score is nil-nil, no serve is pending or
/// falls due, and the counter of points since the last change of server
/// is zero.
pub proof fn law_new_match_idles(server_is_p1: bool, deltas: Seq<u64>)
    ensures
        Score::fresh(server_is_p1).after_delays(deltas) == Score::fresh(server_is_p1),
        forall|delta: u64| !(#[trigger] Score::fresh(server_is_p1).serve_due(delta)),
    decreases deltas.len(),
{
    if deltas.len() > 0 {
        law_new_match_idles(server_is_p1, deltas.drop_last());
    }
}

/// The frames in `deltas` taken together, in nanoseconds.
pub open spec fn total_time(deltas: Seq<u64>) -> int
    decreases deltas.len(),
{
    if deltas.len() == 0 {
        0
    } else {
        total_time(deltas.drop_last()) + deltas.last()
    }
}

/// The serve keeps its delay: after a point, as long as the frames taken
/// together are shorter than the delay, the serve stays pending with what
/// is left of the delay, and the frame that completes the delay brings the
/// serve.
pub proof fn law_serve_follows_the_delay(score: Score, side: Player, deltas: Seq<u64>, last: u64)
    requires
        total_time(deltas) < SERVE_DELAY,
    ensures
        ({
            let waiting = score.awarded(side).after_delays(deltas);
            &&& waiting.should_serve
            &&& waiting.serve_delay_remaining == SERVE_DELAY - total_time(deltas)
            &&& waiting.serve_due(last) <==> total_time(deltas) + last >= SERVE_DELAY
            &&& waiting.p1 == score.awarded(side).p1 && waiting.p2 == score.awarded(side).p2
            &&& waiting.server_is_p1 == score.awarded(side).server_is_p1
        }),
    decreases deltas.len(),
{
    if deltas.len() > 0 {
        lemma_total_time_is_positive(deltas.drop_last());
        law_serve_follows_the_delay(score, side, deltas.drop_last(), deltas.last());
    }
}

proof fn lemma_total_time_is_positive(deltas: Seq<u64>)
    ensures
        total_time(deltas) >= 0,
    decreases deltas.len(),
{
    if deltas.len() > 0 {
        lemma_total_time_is_positive(deltas.drop_last());
    }
}

/// A collision means the same whichever of its two slots holds the ball.
pub proof fn law_collision_slots_are_interchangeable(
    collision: Collision,
    balls: Seq<u64>,
    walls: Seq<WallEntity>,
)
    ensures
        resolved(collision.swapped(), balls, walls) == resolved(collision, balls, walls),
{
    lemma_ball_in_swapped(balls, collision, 0);
    lemma_wall_in_swapped(walls, collision, 0);
}

proof fn lemma_ball_in_swapped(balls: Seq<u64>, collision: Collision, from: int)
    ensures
        ball_in(balls, collision.swapped(), from) == ball_in(balls, collision, from),
    decreases balls.len() - from,
{
    if 0 <= from < balls.len() {
        lemma_ball_in_swapped(balls, collision, from + 1);
    }
}

proof fn lemma_wall_in_swapped(walls: Seq<WallEntity>, collision: Collision, from: int)
    ensures
        wall_in(walls, collision.swapped(), from) == wall_in(walls, collision, from),
    decreases walls.len() - from,
{
    if 0 <= from < walls.len() {
        lemma_wall_in_swapped(walls, collision, from + 1);
    }
}

/// One collision of the ball with a wall is one point at most: with the
/// left wall it is one point for player two and the ball leaves the
/// board, with the right wall one point for player one, and with the top
/// or the bottom wall the score stays as it is and the ball stays in
/// play.
pub proof fn law_wall_decides_the_point(
    score: Score,
    collision: Collision,
    ball: u64,
    wall: Wall,
    walls: Seq<WallEntity>,
)
    requires
        collision.touches(ball),
        wall_in(walls, collision, 0) == Some(wall),
    ensures
        ({
            let after = score_after(score, seq![collision], seq![ball], walls);
            let gone = despawned_after(seq![collision], seq![ball], walls);
            match wall {
                Wall::Left => after == score.awarded(Player::P2) && gone == seq![ball],
                Wall::Right => after == score.awarded(Player::P1) && gone == seq![ball],
                Wall::Top => after == score && gone == Seq::<u64>::empty(),
                Wall::Bottom => after == score && gone == Seq::<u64>::empty(),
            }
        }),
{
    let collisions = seq![collision];
    let balls = seq![ball];
    assert(collisions.drop_last() == Seq::<Collision>::empty());
    assert(collisions.last() == collision);
    assert(ball_in(balls, collision, 0) == Some(ball));
    reveal_with_fuel(score_after, 2);
    reveal_with_fuel(despawned_after, 2);
    assert(Seq::<u64>::empty().push(ball) == seq![ball]);
}

/// A collision in which no ball, or no wall, takes part changes nothing.
pub proof fn law_other_collisions_are_passed_over(
    score: Score,
    collision: Collision,
    balls: Seq<u64>,
    walls: Seq<WallEntity>,
)
    requires
        ball_in(balls, collision, 0).is_none() || wall_in(walls, collision, 0).is_none(),
    ensures
        score_after(score, seq![collision], balls, walls) == score,
        despawned_after(seq![collision], balls, walls) == Seq::<u64>::empty(),
{
    let collisions = seq![collision];
    assert(collisions.drop_last() == Seq::<Collision>::empty());
    assert(collisions.last() == collision);
    reveal_with_fuel(score_after, 2);
    reveal_with_fuel(despawned_after, 2);
}

} // verus!
