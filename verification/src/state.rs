//! The screens of the match and the moves between them.
//!
//! The match opens on the splash screen, is played, may be paused, and
//! ends on the game-over screen, from which a new match starts. Only
//! while it is played do the score, the ball and the opponent run.

use vstd::prelude::*;
use crate::ball::{create_ball, served_ball, Ball};
use crate::score::{
    despawned_after, handle_scoring, handle_serve_delay, is_match_won, score_after, Collision,
    Score, WallEntity,
};

verus! {

/// The screen that the match is on.
#[derive(Clone, Copy, Debug, PartialEq, Eq, Structural)]
pub enum GameState {
    /// The opening screen.
    Splash,
    /// The match is played.
    Playing,
    /// The match is halted and can go on.
    Paused,
    /// A side has won.
    GameOver,
}

impl Default for GameState {
    fn default() -> (state: GameState)
        ensures
            state == GameState::Splash,
    {
        GameState::Splash
    }
}

/// What the player asks for in one frame.
#[derive(Clone, Copy, Debug, PartialEq, Eq, Structural)]
pub struct PhaseInput {
    /// Start the match, or start it anew.
    pub start: bool,
    /// Halt the match, or let it go on.
    pub toggle_pause: bool,
}

/// A move of the match from one screen to the next, with what has to be
/// done on the way.
#[derive(Clone, Copy, Debug, PartialEq, Eq, Structural)]
pub struct Transition {
    /// The screen after the move.
    pub next: GameState,
    /// Every ball in play leaves the board.
    pub despawn_balls: bool,
    /// The score starts over.
    pub reset_score: bool,
    /// Play is taken up: a ball is served unless one is in play or a
    /// serve is pending.
    pub resume: bool,
}

impl GameState {
    /// The score, the ball and the opponent run on this screen.
    pub open spec fn runs_the_match(self) -> bool {
        self == GameState::Playing
    }

    /// Tests whether the score, the ball and the opponent run on this
    /// screen: off play no point is counted, no serve falls due, and no
    /// paddle is moved.
    pub fn in_play(self) -> (running: bool)
        ensures
            running == self.runs_the_match(),
    {
        match self {
            GameState::Playing => true,
            _ => false,
        }
    }

    /// The move that a frame brings on this screen, given what the player
    /// asks for and whether the match is won.
    ///
    /// A won match ends play before anything else. Leaving play always
    /// clears the board of balls; entering play always takes play up; a
    /// new match after a finished one starts the score over.
    pub open spec fn moved(self, input: PhaseInput, won: bool) -> Transition {
        match self {
            GameState::Splash => if input.start {
                Transition { next: GameState::Playing, despawn_balls: false, reset_score: false, resume: true }
            } else {
                self.stays()
            },
            GameState::Playing => if won {
                Transition { next: GameState::GameOver, despawn_balls: true, reset_score: false, resume: false }
            } else if input.toggle_pause {
                Transition { next: GameState::Paused, despawn_balls: true, reset_score: false, resume: false }
            } else {
                self.stays()
            },
            GameState::Paused => if input.toggle_pause {
                Transition { next: GameState::Playing, despawn_balls: false, reset_score: false, resume: true }
            } else {
                self.stays()
            },
            GameState::GameOver => if input.start {
                Transition { next: GameState::Playing, despawn_balls: false, reset_score: true, resume: true }
            } else {
                self.stays()
            },
        }
    }

    /// No move: the match stays on this screen and nothing is done.
    pub open spec fn stays(self) -> Transition {
        Transition { next: self, despawn_balls: false, reset_score: false, resume: false }
    }

    /// Works out the move that a frame brings on this screen.
    pub fn step(self, input: PhaseInput, won: bool) -> (transition: Transition)
        ensures
            transition == self.moved(input, won),
    {
        let stay = Transition { next: self, despawn_balls: false, reset_score: false, resume: false };
        match self {
            GameState::Splash => match handle_splash_input(input.start) {
                Some(next) => Transition { next, despawn_balls: false, reset_score: false, resume: true },
                None => stay,
            },
            GameState::Playing => if won {
                Transition { next: GameState::GameOver, despawn_balls: true, reset_score: false, resume: false }
            } else {
                match handle_pause(input.toggle_pause, self) {
                    Some(next) => Transition { next, despawn_balls: true, reset_score: false, resume: false },
                    None => stay,
                }
            },
            GameState::Paused => match handle_pause(input.toggle_pause, self) {
                Some(next) => Transition { next, despawn_balls: false, reset_score: false, resume: true },
                None => stay,
            },
            GameState::GameOver => if input.start {
                Transition { next: GameState::Playing, despawn_balls: false, reset_score: true, resume: true }
            } else {
                stay
            },
        }
    }
}

/// On the splash screen, the start key opens play.
pub fn handle_splash_input(start_pressed: bool) -> (next: Option<GameState>)
    ensures
        next == (if start_pressed { Some(GameState::Playing) } else { None }),
{
    if start_pressed {
        Some(GameState::Playing)
    } else {
        None
    }
}

/// The pause key halts play and lets a halted match go on. On any other
/// screen it does nothing.
pub fn handle_pause(pause_pressed: bool, current: GameState) -> (next: Option<GameState>)
    ensures
        next == (if pause_pressed && current == GameState::Playing {
            Some(GameState::Paused)
        } else if pause_pressed && current == GameState::Paused {
            Some(GameState::Playing)
        } else {
            None
        }),
{
    if pause_pressed {
        match current {
            GameState::Playing => Some(GameState::Paused),
            GameState::Paused => Some(GameState::Playing),
            _ => None,
        }
    } else {
        None
    }
}

/// On the game-over screen, the start key starts the score over, with a
/// first server drawn by a coin, and opens play.
pub fn handle_endgame_input(start_pressed: bool, score: &mut Score) -> (next: Option<GameState>)
    ensures
        start_pressed ==> next == Some(GameState::Playing) && *final(score) == Score::fresh(
            final(score).server_is_p1,
        ),
        !start_pressed ==> next.is_none() && *final(score) == *old(score),
{
    if start_pressed {
        score.reset();
        Some(GameState::Playing)
    } else {
        None
    }
}

/// Ends play when the match is won: the match moves to the game-over
/// screen, and every ball in play is to leave the board.
pub fn check_victory(score: &Score) -> (next: Option<GameState>)
    ensures
        next == (if is_match_won(score.p1 as nat, score.p2 as nat) {
            Some(GameState::GameOver)
        } else {
            None
        }),
{
    if score.check_victory() {
        Some(GameState::GameOver)
    } else {
        None
    }
}

/// Takes play up: a ball is served for the server unless one is in play
/// or a serve is pending.
pub fn on_resume(score: &Score, ball_in_play: bool) -> (served: Option<Ball>)
    ensures
        served == (if !ball_in_play && !score.should_serve {
            Some(served_ball(score.server_is_p1))
        } else {
            None
        }),
{
    if !ball_in_play && !score.should_serve {
        Some(create_ball(score.server_is_p1))
    } else {
        None
    }
}

/// How the match ended for the human player.
#[derive(Clone, Copy, Debug, PartialEq, Eq, Structural)]
pub enum Outcome {
    Victory,
    Defeat,
}

/// The verdict shown on the game-over screen: a victory when player one
/// has more points, a defeat otherwise.
pub fn endgame_outcome(score: &Score) -> (outcome: Outcome)
    ensures
        outcome == (if score.p1 > score.p2 { Outcome::Victory } else { Outcome::Defeat }),
{
    if score.p1 > score.p2 {
        Outcome::Victory
    } else {
        Outcome::Defeat
    }
}

/// What one frame asks of the board.
pub struct FrameOutcome {
    /// The balls that scored and leave the board, in the order of their
    /// collisions.
    pub despawned: Vec<u64>,
    /// Every ball in play leaves the board.
    pub despawn_all: bool,
    /// The ball to put in play.
    pub served: Option<Ball>,
    /// The screen to move to, if the match moves.
    pub next_state: Option<GameState>,
}

/// One frame of play, in the order that the rules need: first the
/// collisions are turned into points, then the match is tested for a
/// winner, and only if there is none does the pause before the next serve
/// run on. So no ball is ever served into a match that is won. A won
/// match clears the board and moves to the game-over screen.
pub fn play_frame(
    score: &mut Score,
    collisions: &Vec<Collision>,
    balls: &Vec<u64>,
    walls: &Vec<WallEntity>,
    delta: u64,
) -> (outcome: FrameOutcome)
    requires
        old(score).wf(),
    ensures
        final(score).wf(),
        outcome.despawned@ == despawned_after(collisions@, balls@, walls@),
        ({
            let scored = score_after(*old(score), collisions@, balls@, walls@);
            if is_match_won(scored.p1 as nat, scored.p2 as nat) {
                &&& *final(score) == scored
                &&& outcome.served.is_none()
                &&& outcome.despawn_all
                &&& outcome.next_state == Some(GameState::GameOver)
            } else {
                &&& *final(score) == scored.after_delay(delta)
                &&& outcome.served == (if scored.serve_due(delta) {
                    Some(served_ball(scored.server_is_p1))
                } else {
                    None
                })
                &&& !outcome.despawn_all
                &&& outcome.next_state.is_none()
            }
        }),
{
    let despawned = handle_scoring(score, collisions, balls, walls);
    let next_state = check_victory(score);
    let served = if next_state.is_some() {
        None
    } else {
        handle_serve_delay(score, delta)
    };
    FrameOutcome { despawned, despawn_all: next_state.is_some(), served, next_state }
}

/// The screen to move to, if it is another one.
pub open spec fn changed(state: GameState, next: GameState) -> Option<GameState> {
    if next == state {
        None
    } else {
        Some(next)
    }
}

/// One frame of the match on whatever screen it is.
///
/// Off play the score rests: nothing is counted, no pause runs down, and
/// only the player's keys move the match. A move into play takes play up,
/// with a serve unless a ball is in play or a serve is pending; a new
/// match after a finished one starts from a fresh score, its first server
/// drawn by a coin. In play the frame is played as `play_frame` says, and
/// then the pause key may halt the match. Every move out of play clears
/// the board, and nothing is served on the way out.
pub fn run_frame(
    state: GameState,
    score: &mut Score,
    input: PhaseInput,
    collisions: &Vec<Collision>,
    balls: &Vec<u64>,
    walls: &Vec<WallEntity>,
    delta: u64,
) -> (outcome: FrameOutcome)
    requires
        old(score).wf(),
    ensures
        final(score).wf(),
        !state.runs_the_match() ==> ({
            let t = state.moved(input, false);
            &&& outcome.next_state == changed(state, t.next)
            &&& outcome.despawned@ == Seq::<u64>::empty()
            &&& !outcome.despawn_all
            &&& if t.reset_score {
                *final(score) == Score::fresh(final(score).server_is_p1)
            } else {
                *final(score) == *old(score)
            }
            &&& outcome.served == (if t.resume && balls@.len() == 0 && !final(score).should_serve {
                Some(served_ball(final(score).server_is_p1))
            } else {
                None
            })
        }),
        state.runs_the_match() ==> ({
            let scored = score_after(*old(score), collisions@, balls@, walls@);
            let won = is_match_won(scored.p1 as nat, scored.p2 as nat);
            let t = state.moved(input, won);
            &&& outcome.next_state == changed(state, t.next)
            &&& outcome.despawned@ == despawned_after(collisions@, balls@, walls@)
            &&& outcome.despawn_all == t.despawn_balls
            &&& *final(score) == (if won { scored } else { scored.after_delay(delta) })
            &&& outcome.served == (if !won && t.next == GameState::Playing && scored.serve_due(delta) {
                Some(served_ball(scored.server_is_p1))
            } else {
                None
            })
        }),
{
    match state {
        GameState::Playing => {
            let played = play_frame(score, collisions, balls, walls, delta);
            if played.next_state.is_some() {
                played
            } else {
                match handle_pause(input.toggle_pause, state) {
                    Some(next) => FrameOutcome {
                        despawned: played.despawned,
                        despawn_all: true,
                        served: None,
                        next_state: Some(next),
                    },
                    None => played,
                }
            }
        },
        _ => {
            let next_state = match state {
                GameState::Splash => handle_splash_input(input.start),
                GameState::GameOver => handle_endgame_input(input.start, score),
                _ => handle_pause(input.toggle_pause, state),
            };
            let served = if next_state.is_some() {
                on_resume(score, balls.len() > 0)
            } else {
                None
            };
            FrameOutcome { despawned: Vec::new(), despawn_all: false, served, next_state }
        },
    }
}

/// The match reaches the game-over screen from play alone, only when it
/// is won, and never without the board being cleared of balls.
pub proof fn law_game_over_follows_a_cleared_board(state: GameState, input: PhaseInput, won: bool)
    requires
        state != GameState::GameOver,
        state.moved(input, won).next == GameState::GameOver,
    ensures
        state == GameState::Playing,
        won,
        state.moved(input, won).despawn_balls,
{
}

/// Every move out of play clears the board of balls, every move into
/// play takes play up, and the score starts over only on the way from the
/// game-over screen into a new match.
pub proof fn law_moves_carry_their_duties(state: GameState, input: PhaseInput, won: bool)
    ensures
        ({
            let t = state.moved(input, won);
            &&& state == GameState::Playing && t.next != GameState::Playing ==> t.despawn_balls
            &&& state != GameState::Playing && t.next == GameState::Playing ==> t.resume
            &&& t.reset_score <==> state == GameState::GameOver && t.next == GameState::Playing
            &&& state == GameState::Splash ==> t.next == GameState::Splash || t.next
                == GameState::Playing
        }),
{
}

/// Pausing is undone by pausing again: from play, two presses of the
/// pause key lead back to play, as long as the match is not won.
pub proof fn law_pause_is_its_own_inverse(start_first: bool, start_second: bool)
    ensures
        ({
            let first = PhaseInput { start: start_first, toggle_pause: true };
            let second = PhaseInput { start: start_second, toggle_pause: true };
            let paused = GameState::Playing.moved(first, false).next;
            &&& paused == GameState::Paused
            &&& paused.moved(second, false).next == GameState::Playing
        }),
{
}

} // verus!
