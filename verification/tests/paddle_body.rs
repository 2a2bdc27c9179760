use rusty_pong::ball::Vec2;
use rusty_pong::paddle::{
    create_paddle, create_paddle_mesh, generate_segment_vertices, handle_paddle_collisions,
    update_paddle_punch, Paddle, PunchState,
};
use rusty_pong::player::{PaddleConfig, Player};
use rusty_pong::score::Collision;

const BALL: u64 = 100;

fn paddles() -> Vec<Paddle> {
    let config = PaddleConfig::default();
    vec![create_paddle(1, &config, Player::P1), create_paddle(2, &config, Player::P2)]
}

#[test]
fn paddles_stand_at_their_homes() {
    let both = paddles();
    assert_eq!(
        both[0],
        Paddle {
            entity: 1,
            x: -7_650_000,
            punch: PunchState { remaining: 0, is_punching: false, rest_x: -7_650_000 },
        }
    );
    assert_eq!(both[1].x, 7_650_000);
    assert_eq!(both[1].punch.rest_x, 7_650_000);
    assert!(!both[1].punch.is_punching);
}

#[test]
fn paddle_punches_toward_the_centre_line() {
    let config = PaddleConfig::default();
    let both = paddles();
    let left = both[0].strike(&config);
    assert_eq!(left.x, -7_500_000);
    assert_eq!(left.punch, PunchState { remaining: 50_000_000, is_punching: true, rest_x: -7_650_000 });
    let right = both[1].strike(&config);
    assert_eq!(right.x, 7_500_000);
    assert_eq!(right.entity, 2);
    let centre = Paddle { x: 0, ..both[0] };
    assert_eq!(centre.strike(&config).x, -150_000);
}

#[test]
fn punch_is_held_within_the_range_of_a_coordinate() {
    let far = PaddleConfig { punch_distance: u32::MAX, ..PaddleConfig::default() };
    let both = paddles();
    assert_eq!(both[0].strike(&far).x, i32::MAX);
    assert_eq!(both[1].strike(&far).x, i32::MIN);
}

#[test]
fn paddle_strikes_when_it_meets_the_ball() {
    let config = PaddleConfig::default();
    for collision in [Collision { first: BALL, second: 2 }, Collision { first: 2, second: BALL }] {
        let mut both = paddles();
        handle_paddle_collisions(&config, &vec![collision], &mut both, Some(BALL));
        assert_eq!(both[0], paddles()[0]);
        assert_eq!(both[1], paddles()[1].strike(&config));
    }
}

#[test]
fn paddle_does_not_strike_twice() {
    let config = PaddleConfig::default();
    let mut both = paddles();
    let collisions = vec![
        Collision { first: BALL, second: 1 },
        Collision { first: 1, second: BALL },
        Collision { first: BALL, second: 1 },
    ];
    handle_paddle_collisions(&config, &collisions, &mut both, Some(BALL));
    assert_eq!(both[0].x, -7_500_000);
    assert!(both[0].punch.is_punching);
    assert_eq!(both[1], paddles()[1]);
}

#[test]
fn paddle_ignores_what_is_not_the_ball() {
    let config = PaddleConfig::default();
    let mut both = paddles();
    let collisions = vec![
        Collision { first: 55, second: 1 },
        Collision { first: 1, second: 2 },
        Collision { first: BALL, second: 77 },
    ];
    handle_paddle_collisions(&config, &collisions, &mut both, Some(BALL));
    assert_eq!(both, paddles());
    let hit = vec![Collision { first: BALL, second: 1 }];
    handle_paddle_collisions(&config, &hit, &mut both, None);
    assert_eq!(both, paddles());
}

#[test]
fn first_ready_paddle_strikes() {
    let config = PaddleConfig::default();
    let mut both = paddles();
    both[1].entity = 1;
    let hit = vec![Collision { first: BALL, second: 1 }];
    handle_paddle_collisions(&config, &hit, &mut both, Some(BALL));
    assert!(both[0].punch.is_punching);
    assert!(!both[1].punch.is_punching);
    handle_paddle_collisions(&config, &hit, &mut both, Some(BALL));
    assert!(both[1].punch.is_punching);
    assert_eq!(both[1].x, 7_500_000);
}

#[test]
fn paddle_goes_back_after_its_punch() {
    let config = PaddleConfig::default();
    let mut paddle = paddles()[0].strike(&config);
    update_paddle_punch(&mut paddle, 20_000_000);
    assert_eq!(paddle.x, -7_500_000);
    assert_eq!(paddle.punch, PunchState { remaining: 30_000_000, is_punching: true, rest_x: -7_650_000 });
    update_paddle_punch(&mut paddle, 30_000_000);
    assert_eq!(paddle, paddles()[0]);
    update_paddle_punch(&mut paddle, 1_000_000_000);
    assert_eq!(paddle, paddles()[0]);
}

#[test]
fn paddle_at_rest_is_not_moved() {
    let mut paddle = Paddle {
        entity: 9,
        x: 5,
        punch: PunchState { remaining: 3, is_punching: false, rest_x: 1 },
    };
    let before = paddle;
    update_paddle_punch(&mut paddle, u64::MAX);
    assert_eq!(paddle, before);
}

#[test]
fn face_is_flat_at_its_ends_and_deepest_in_the_middle() {
    let config = PaddleConfig::default();
    assert_eq!(
        generate_segment_vertices(0, 100, &config),
        vec![
            Vec2 { x: 0, y: -1_000_000 },
            Vec2 { x: 0, y: -1_000_000 },
            Vec2 { x: 11_880, y: -980_000 },
            Vec2 { x: 0, y: -980_000 },
        ]
    );
    assert_eq!(
        generate_segment_vertices(49, 100, &config),
        vec![
            Vec2 { x: 0, y: -20_000 },
            Vec2 { x: 299_880, y: -20_000 },
            Vec2 { x: 300_000, y: 0 },
            Vec2 { x: 0, y: 0 },
        ]
    );
    assert_eq!(
        generate_segment_vertices(99, 100, &config),
        vec![
            Vec2 { x: 0, y: 980_000 },
            Vec2 { x: 11_880, y: 980_000 },
            Vec2 { x: 0, y: 1_000_000 },
            Vec2 { x: 0, y: 1_000_000 },
        ]
    );
}

#[test]
fn face_matches_the_parabola_in_floating_point() {
    let config = PaddleConfig { segments: 7, ..PaddleConfig::default() };
    for index in 0..7usize {
        let corners = generate_segment_vertices(index, 7, &config);
        let height = 2.0f64;
        let piece = height / 7.0;
        let low = -height / 2.0 + index as f64 * piece;
        let high = low + piece;
        let curve = |y: f64| {
            let n = (y + height / 2.0) / height;
            0.3 * (4.0 * n * (1.0 - n))
        };
        let wanted = [(0.0, low), (curve(low), low), (curve(high), high), (0.0, high)];
        for (corner, (x, y)) in corners.iter().zip(wanted) {
            assert!((corner.x as f64 / 1e6 - x).abs() < 2e-6);
            assert!((corner.y as f64 / 1e6 - y).abs() < 2e-6);
        }
    }
}

#[test]
fn mesh_has_four_corners_and_two_triangles_for_each_piece() {
    let config = PaddleConfig { segments: 3, ..PaddleConfig::default() };
    let mesh = create_paddle_mesh(&config);
    assert_eq!(mesh.vertices.len(), 12);
    for piece in 0..3usize {
        assert_eq!(
            mesh.vertices[4 * piece..4 * piece + 4].to_vec(),
            generate_segment_vertices(piece, 3, &config)
        );
    }
    assert_eq!(mesh.indices, vec![0, 1, 2, 0, 2, 3, 4, 5, 6, 4, 6, 7, 8, 9, 10, 8, 10, 11]);
}

#[test]
fn mesh_of_the_standard_paddle() {
    let mesh = create_paddle_mesh(&PaddleConfig::default());
    assert_eq!(mesh.vertices.len(), 400);
    assert_eq!(mesh.indices.len(), 600);
    assert_eq!(mesh.vertices[0], Vec2 { x: 0, y: -1_000_000 });
    assert_eq!(mesh.vertices[399], Vec2 { x: 0, y: 1_000_000 });
    assert_eq!(mesh.indices[599], 399);
}

#[test]
fn mesh_without_pieces_is_empty() {
    let config = PaddleConfig { segments: 0, ..PaddleConfig::default() };
    let mesh = create_paddle_mesh(&config);
    assert!(mesh.vertices.is_empty());
    assert!(mesh.indices.is_empty());
}

#[test]
fn punch_is_at_rest_by_default() {
    assert_eq!(
        PunchState::default(),
        PunchState { remaining: 0, is_punching: false, rest_x: 0 }
    );
}
