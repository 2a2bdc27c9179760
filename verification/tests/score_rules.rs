use rusty_pong::ball::{Ball, Vec2, MIN_VELOCITY};
use rusty_pong::player::Player;
use rusty_pong::score::{handle_serve_delay, Score, SERVE_DELAY};

fn score_at(p1: u32, p2: u32) -> Score {
    Score {
        p1,
        p2,
        server_is_p1: true,
        serve_count: 0,
        serve_delay_remaining: SERVE_DELAY,
        should_serve: false,
    }
}

#[test]
fn new_match_starts_at_nil_nil() {
    let score = Score::with_server(true);
    assert_eq!(score.p1, 0);
    assert_eq!(score.p2, 0);
    assert!(score.server_is_p1);
    assert_eq!(score.serve_count, 0);
    assert_eq!(score.serve_delay_remaining, SERVE_DELAY);
    assert!(!score.should_serve);
}

#[test]
fn serve_delay_is_three_quarters_of_a_second() {
    assert_eq!(SERVE_DELAY, 750_000_000);
}

#[test]
fn drawn_match_starts_at_nil_nil() {
    for _ in 0..50 {
        let score = Score::new();
        assert_eq!(score, Score::with_server(score.server_is_p1));
    }
}

#[test]
fn first_server_is_drawn_both_ways() {
    let mut p1_serves: u32 = 0;
    let trials: u32 = 2000;
    for _ in 0..trials {
        if Score::new().server_is_p1 {
            p1_serves += 1;
        }
    }
    assert!(p1_serves > trials / 4, "player one served first only {p1_serves} times");
    assert!(p1_serves < trials * 3 / 4, "player one served first {p1_serves} times");
}

#[test]
fn serve_changes_after_two_points() {
    let mut score = Score::with_server(true);
    score.award_point(Player::P1);
    assert!(score.server_is_p1);
    assert_eq!(score.serve_count, 1);
    score.award_point(Player::P1);
    assert!(!score.server_is_p1);
    assert_eq!(score.serve_count, 0);
    assert_eq!(score.p1, 2);
    assert_eq!(score.p2, 0);
}

#[test]
fn match_from_nil_nil_through_deuce_to_the_win() {
    let mut score = Score::with_server(true);
    score.award_point(Player::P1);
    score.award_point(Player::P1);
    assert!(!score.server_is_p1);
    assert_eq!(score.serve_count, 0);
    // On to 10-2, then player two catches up to 10-10.
    for played in 3..=12u32 {
        let side = if played <= 10 { Player::P1 } else { Player::P2 };
        score.award_point(side);
        assert_eq!(score.serve_count, played % 2);
        assert_eq!(score.server_is_p1, (played / 2) % 2 == 0);
        assert!(!score.check_victory());
    }
    assert_eq!((score.p1, score.p2), (10, 2));
    for played in 13..=20u32 {
        score.award_point(Player::P2);
        if played < 20 {
            assert_eq!(score.serve_count, played % 2);
        }
        assert_eq!(score.server_is_p1, (played / 2) % 2 == 0);
    }
    assert_eq!((score.p1, score.p2), (10, 10));
    assert_eq!(score.serve_count, 0);
    assert!(!score.check_victory());
    let server = score.server_is_p1;
    score.award_point(Player::P2);
    assert_eq!(score.server_is_p1, !server);
    assert_eq!(score.serve_count, 0);
    assert!(!score.check_victory());
    score.award_point(Player::P1);
    assert_eq!(score.server_is_p1, server);
    assert_eq!(score.serve_count, 0);
    assert_eq!((score.p1, score.p2), (11, 11));
    score.award_point(Player::P1);
    assert!(!score.check_victory());
    score.award_point(Player::P1);
    assert_eq!((score.p1, score.p2), (13, 11));
    assert!(score.check_victory());
}

#[test]
fn eleven_nine_wins() {
    let mut score = Score::with_server(false);
    for _ in 0..9 {
        score.award_point(Player::P1);
        score.award_point(Player::P2);
    }
    score.award_point(Player::P1);
    assert_eq!((score.p1, score.p2), (10, 9));
    assert!(!score.check_victory());
    score.award_point(Player::P1);
    assert_eq!((score.p1, score.p2), (11, 9));
    assert!(score.check_victory());
}

#[test]
fn serve_changes_on_the_point_that_reaches_deuce() {
    let mut score = score_at(10, 9);
    score.serve_count = 1;
    score.add_point(false);
    assert_eq!((score.p1, score.p2), (10, 10));
    assert!(!score.server_is_p1);
    assert_eq!(score.serve_count, 0);

    let mut score = score_at(9, 10);
    score.add_point(true);
    assert_eq!((score.p1, score.p2), (10, 10));
    assert!(!score.server_is_p1);
    assert_eq!(score.serve_count, 0);
}

#[test]
fn victory_needs_eleven_points_and_a_lead_of_two() {
    let cases: [(u32, u32, bool); 14] = [
        (0, 0, false),
        (10, 0, false),
        (11, 0, true),
        (0, 11, true),
        (11, 9, true),
        (9, 11, true),
        (11, 10, false),
        (10, 11, false),
        (10, 10, false),
        (12, 10, true),
        (10, 12, true),
        (15, 14, false),
        (14, 16, true),
        (20, 20, false),
    ];
    for (p1, p2, won) in cases {
        assert_eq!(score_at(p1, p2).check_victory(), won, "{p1}-{p2}");
    }
}

#[test]
fn victory_is_tested_without_overflow() {
    assert!(!score_at(u32::MAX, u32::MAX).check_victory());
    assert!(!score_at(u32::MAX, u32::MAX - 1).check_victory());
    assert!(score_at(u32::MAX, u32::MAX - 2).check_victory());
    assert!(score_at(0, u32::MAX).check_victory());
}

#[test]
fn points_stop_at_the_largest_number() {
    let mut score = score_at(u32::MAX, 3);
    score.add_point(true);
    assert_eq!(score.p1, u32::MAX);
    assert_eq!(score.p2, 3);
    assert_eq!(score.serve_count, 1);
}

#[test]
fn add_point_leaves_the_serve_alone() {
    let mut score = Score::with_server(true);
    score.serve_delay_remaining = 5;
    score.add_point(false);
    assert_eq!((score.p1, score.p2), (0, 1));
    assert!(!score.should_serve);
    assert_eq!(score.serve_delay_remaining, 5);
}

#[test]
fn award_point_schedules_the_serve() {
    let mut score = Score::with_server(true);
    score.serve_delay_remaining = 5;
    score.award_point(Player::P2);
    assert_eq!((score.p1, score.p2), (0, 1));
    assert!(score.should_serve);
    assert_eq!(score.serve_delay_remaining, SERVE_DELAY);
}

#[test]
fn serve_follows_after_the_delay() {
    let mut score = Score::with_server(false);
    score.award_point(Player::P1);
    assert_eq!(handle_serve_delay(&mut score, 300_000_000), None);
    assert!(score.should_serve);
    assert_eq!(score.serve_delay_remaining, 450_000_000);
    assert_eq!(handle_serve_delay(&mut score, 449_999_999), None);
    assert_eq!(score.serve_delay_remaining, 1);
    let served = handle_serve_delay(&mut score, 1);
    assert_eq!(
        served,
        Some(Ball {
            position: Vec2 { x: 0, y: 0 },
            velocity: Vec2 { x: -MIN_VELOCITY, y: 0 },
        })
    );
    assert!(!score.should_serve);
    assert_eq!(score.serve_delay_remaining, SERVE_DELAY);
    assert_eq!(handle_serve_delay(&mut score, 1_000_000_000), None);
}

#[test]
fn serve_goes_to_the_server_after_rotation() {
    let mut score = Score::with_server(false);
    score.award_point(Player::P1);
    score.award_point(Player::P1);
    assert!(score.server_is_p1);
    let served = handle_serve_delay(&mut score, u64::MAX).expect("the serve is due");
    assert_eq!(served.velocity, Vec2 { x: MIN_VELOCITY, y: 0 });
}

#[test]
fn a_frame_of_no_length_does_not_serve_early() {
    let mut score = Score::with_server(true);
    score.award_point(Player::P1);
    assert_eq!(handle_serve_delay(&mut score, 0), None);
    assert!(score.should_serve);
    assert_eq!(score.serve_delay_remaining, SERVE_DELAY);
}

#[test]
fn reset_restores_the_start() {
    let mut score = score_at(11, 7);
    score.serve_count = 1;
    score.should_serve = true;
    score.serve_delay_remaining = 12;
    score.reset_with(false);
    assert_eq!(score, Score::with_server(false));
}

#[test]
fn reset_then_idle_frames_change_nothing() {
    for _ in 0..20 {
        let mut score = score_at(12, 10);
        score.should_serve = true;
        score.reset();
        let start = score;
        assert_eq!((start.p1, start.p2), (0, 0));
        assert!(!start.should_serve);
        assert_eq!(start.serve_count, 0);
        for delta in [0u64, 1, 16_666_667, 750_000_000, u64::MAX] {
            assert_eq!(handle_serve_delay(&mut score, delta), None);
            assert_eq!(score, start);
        }
    }
}

#[test]
fn reset_draws_the_server_both_ways() {
    let mut score = Score::with_server(true);
    let mut p1_serves: u32 = 0;
    let trials: u32 = 2000;
    for _ in 0..trials {
        score.reset();
        if score.server_is_p1 {
            p1_serves += 1;
        }
    }
    assert!(p1_serves > trials / 4);
    assert!(p1_serves < trials * 3 / 4);
}
