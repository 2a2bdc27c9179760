use rusty_pong::ball::{Vec2, MIN_VELOCITY};
use rusty_pong::player::Player;
use rusty_pong::board::Wall;
use rusty_pong::score::{Collision, Score, WallEntity};
use rusty_pong::state::{
    check_victory, endgame_outcome, handle_endgame_input, handle_pause, handle_splash_input,
    on_resume, run_frame, GameState, Outcome, PhaseInput, Transition,
};

const NOTHING: PhaseInput = PhaseInput { start: false, toggle_pause: false };
const START: PhaseInput = PhaseInput { start: true, toggle_pause: false };
const PAUSE: PhaseInput = PhaseInput { start: false, toggle_pause: true };
const SPACE: PhaseInput = PhaseInput { start: true, toggle_pause: true };

fn stay(state: GameState) -> Transition {
    Transition { next: state, despawn_balls: false, reset_score: false, resume: false }
}

#[test]
fn match_opens_on_the_splash_screen() {
    assert_eq!(GameState::default(), GameState::Splash);
}

#[test]
fn nothing_happens_without_input() {
    for state in [GameState::Splash, GameState::Playing, GameState::Paused, GameState::GameOver] {
        assert_eq!(state.step(NOTHING, false), stay(state));
    }
    assert_eq!(GameState::Splash.step(NOTHING, true), stay(GameState::Splash));
    assert_eq!(GameState::Paused.step(NOTHING, true), stay(GameState::Paused));
    assert_eq!(GameState::GameOver.step(NOTHING, true), stay(GameState::GameOver));
}

#[test]
fn start_opens_play_from_the_splash_screen() {
    let opened =
        Transition { next: GameState::Playing, despawn_balls: false, reset_score: false, resume: true };
    assert_eq!(GameState::Splash.step(START, false), opened);
    assert_eq!(GameState::Splash.step(SPACE, false), opened);
    assert_eq!(GameState::Splash.step(PAUSE, false), stay(GameState::Splash));
}

#[test]
fn pause_halts_play_and_clears_the_board() {
    let halted =
        Transition { next: GameState::Paused, despawn_balls: true, reset_score: false, resume: false };
    assert_eq!(GameState::Playing.step(PAUSE, false), halted);
    assert_eq!(GameState::Playing.step(SPACE, false), halted);
    assert_eq!(GameState::Playing.step(START, false), stay(GameState::Playing));
}

#[test]
fn pause_again_takes_play_up() {
    let resumed =
        Transition { next: GameState::Playing, despawn_balls: false, reset_score: false, resume: true };
    assert_eq!(GameState::Paused.step(PAUSE, false), resumed);
    assert_eq!(GameState::Paused.step(SPACE, true), resumed);
    assert_eq!(GameState::Paused.step(START, false), stay(GameState::Paused));
}

#[test]
fn a_won_match_ends_play_before_anything_else() {
    let over =
        Transition { next: GameState::GameOver, despawn_balls: true, reset_score: false, resume: false };
    for input in [NOTHING, START, PAUSE, SPACE] {
        assert_eq!(GameState::Playing.step(input, true), over);
    }
}

#[test]
fn start_begins_a_new_match_after_the_last() {
    let anew =
        Transition { next: GameState::Playing, despawn_balls: false, reset_score: true, resume: true };
    assert_eq!(GameState::GameOver.step(START, true), anew);
    assert_eq!(GameState::GameOver.step(SPACE, false), anew);
    assert_eq!(GameState::GameOver.step(PAUSE, true), stay(GameState::GameOver));
}

#[test]
fn splash_input_starts_play() {
    assert_eq!(handle_splash_input(true), Some(GameState::Playing));
    assert_eq!(handle_splash_input(false), None);
}

#[test]
fn pause_key_toggles_between_play_and_pause_only() {
    assert_eq!(handle_pause(true, GameState::Playing), Some(GameState::Paused));
    assert_eq!(handle_pause(true, GameState::Paused), Some(GameState::Playing));
    assert_eq!(handle_pause(true, GameState::Splash), None);
    assert_eq!(handle_pause(true, GameState::GameOver), None);
    for state in [GameState::Splash, GameState::Playing, GameState::Paused, GameState::GameOver] {
        assert_eq!(handle_pause(false, state), None);
    }
}

#[test]
fn endgame_input_resets_the_score() {
    let mut score = Score::with_server(true);
    for _ in 0..11 {
        score.award_point(Player::P2);
    }
    let before = score;
    assert_eq!(handle_endgame_input(false, &mut score), None);
    assert_eq!(score, before);
    assert_eq!(handle_endgame_input(true, &mut score), Some(GameState::Playing));
    assert_eq!(score, Score::with_server(score.server_is_p1));
}

#[test]
fn victory_moves_to_the_game_over_screen() {
    let mut score = Score::with_server(true);
    for _ in 0..10 {
        score.award_point(Player::P1);
    }
    assert_eq!(check_victory(&score), None);
    score.award_point(Player::P1);
    assert_eq!(check_victory(&score), Some(GameState::GameOver));
}

#[test]
fn play_is_taken_up_with_a_serve() {
    let mut score = Score::with_server(false);
    let served = on_resume(&score, false).expect("no ball is in play and no serve is pending");
    assert_eq!(served.position, Vec2 { x: 0, y: 0 });
    assert_eq!(served.velocity, Vec2 { x: -MIN_VELOCITY, y: 0 });
    assert_eq!(on_resume(&score, true), None);
    score.award_point(Player::P1);
    assert_eq!(on_resume(&score, false), None);
    assert_eq!(on_resume(&score, true), None);
}

#[test]
fn the_leader_decides_the_verdict() {
    let mut score = Score::with_server(true);
    assert_eq!(endgame_outcome(&score), Outcome::Defeat);
    score.award_point(Player::P1);
    assert_eq!(endgame_outcome(&score), Outcome::Victory);
    score.award_point(Player::P2);
    score.award_point(Player::P2);
    assert_eq!(endgame_outcome(&score), Outcome::Defeat);
}

#[test]
fn score_rests_off_play() {
    let walls = vec![WallEntity { entity: 3, wall: Wall::Left }];
    let collisions = vec![Collision { first: 100, second: 3 }];
    for state in [GameState::Splash, GameState::Paused, GameState::GameOver] {
        let mut score = Score::with_server(true);
        score.award_point(Player::P1);
        let before = score;
        let outcome = run_frame(state, &mut score, NOTHING, &collisions, &vec![100], &walls, u64::MAX);
        assert_eq!(score, before);
        assert!(outcome.despawned.is_empty());
        assert!(!outcome.despawn_all);
        assert_eq!(outcome.served, None);
        assert_eq!(outcome.next_state, None);
    }
}

#[test]
fn frame_opens_play_with_a_serve() {
    let mut score = Score::with_server(true);
    let outcome = run_frame(GameState::Splash, &mut score, SPACE, &vec![], &vec![], &vec![], 16_000_000);
    assert_eq!(outcome.next_state, Some(GameState::Playing));
    assert_eq!(outcome.served.map(|ball| ball.velocity), Some(Vec2 { x: MIN_VELOCITY, y: 0 }));
    assert!(!outcome.despawn_all);
    assert_eq!(score, Score::with_server(true));
}

#[test]
fn frame_halts_play_and_clears_the_board() {
    let mut score = Score::with_server(true);
    score.award_point(Player::P2);
    // The pause before the serve runs out in the very frame that halts play.
    let outcome = run_frame(GameState::Playing, &mut score, SPACE, &vec![], &vec![], &vec![], u64::MAX);
    assert_eq!(outcome.next_state, Some(GameState::Paused));
    assert!(outcome.despawn_all);
    assert_eq!(outcome.served, None);
    assert!(!score.should_serve);
    // Taking play up again serves the ball.
    let outcome = run_frame(GameState::Paused, &mut score, SPACE, &vec![], &vec![], &vec![], 5);
    assert_eq!(outcome.next_state, Some(GameState::Playing));
    assert_eq!(outcome.served.map(|ball| ball.velocity), Some(Vec2 { x: MIN_VELOCITY, y: 0 }));
}

#[test]
fn frame_takes_play_up_without_a_second_ball() {
    let mut score = Score::with_server(true);
    let outcome = run_frame(GameState::Paused, &mut score, PAUSE, &vec![], &vec![100], &vec![], 5);
    assert_eq!(outcome.next_state, Some(GameState::Playing));
    assert_eq!(outcome.served, None);
    score.award_point(Player::P1);
    let outcome = run_frame(GameState::Paused, &mut score, PAUSE, &vec![], &vec![], &vec![], 5);
    assert_eq!(outcome.next_state, Some(GameState::Playing));
    assert_eq!(outcome.served, None);
    assert!(score.should_serve);
}

#[test]
fn frame_ends_a_won_match_whatever_the_keys() {
    let walls = vec![WallEntity { entity: 4, wall: Wall::Right }];
    let collisions = vec![Collision { first: 100, second: 4 }];
    let mut score = Score::with_server(true);
    for _ in 0..10 {
        score.award_point(Player::P1);
    }
    let outcome = run_frame(GameState::Playing, &mut score, SPACE, &collisions, &vec![100], &walls, u64::MAX);
    assert_eq!((score.p1, score.p2), (11, 0));
    assert_eq!(outcome.despawned, vec![100]);
    assert!(outcome.despawn_all);
    assert_eq!(outcome.served, None);
    assert_eq!(outcome.next_state, Some(GameState::GameOver));
}

#[test]
fn frame_starts_a_new_match_from_a_fresh_score() {
    let mut score = Score::with_server(true);
    for _ in 0..11 {
        score.award_point(Player::P2);
    }
    let before = score;
    let outcome = run_frame(GameState::GameOver, &mut score, PAUSE, &vec![], &vec![], &vec![], 5);
    assert_eq!(outcome.next_state, None);
    assert_eq!(score, before);
    let outcome = run_frame(GameState::GameOver, &mut score, START, &vec![], &vec![], &vec![], 5);
    assert_eq!(outcome.next_state, Some(GameState::Playing));
    assert_eq!(score, Score::with_server(score.server_is_p1));
    let direction = if score.server_is_p1 { MIN_VELOCITY } else { -MIN_VELOCITY };
    assert_eq!(outcome.served.map(|ball| ball.velocity), Some(Vec2 { x: direction, y: 0 }));
}

#[test]
fn frame_of_play_without_keys_plays_on() {
    let mut score = Score::with_server(false);
    score.award_point(Player::P1);
    let outcome = run_frame(GameState::Playing, &mut score, START, &vec![], &vec![], &vec![], 750_000_000);
    assert_eq!(outcome.next_state, None);
    assert!(!outcome.despawn_all);
    assert_eq!(outcome.served.map(|ball| ball.velocity), Some(Vec2 { x: -MIN_VELOCITY, y: 0 }));
}

#[test]
fn the_match_runs_in_play_only() {
    assert!(GameState::Playing.in_play());
    assert!(!GameState::Splash.in_play());
    assert!(!GameState::Paused.in_play());
    assert!(!GameState::GameOver.in_play());
}
