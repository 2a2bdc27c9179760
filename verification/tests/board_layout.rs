use rusty_pong::ball::Vec2;
use rusty_pong::board::{
    spawn_center_line, spawn_walls, Wall, BOARD_HEIGHT, BOARD_WIDTH, DASH_GAP, DASH_LENGTH,
    DASH_WIDTH, WALL_THICKNESS,
};

#[test]
fn measures_of_the_board() {
    assert_eq!(BOARD_WIDTH, 16_000_000);
    assert_eq!(BOARD_HEIGHT, 10_000_000);
    assert_eq!(WALL_THICKNESS, 100_000);
    assert_eq!(DASH_LENGTH, 800_000);
    assert_eq!(DASH_WIDTH, 100_000);
    assert_eq!(DASH_GAP, 400_000);
}

#[test]
fn walls_stand_at_the_edges_of_the_board() {
    assert_eq!(Wall::Top.position(), Vec2 { x: 0, y: 5_000_000 });
    assert_eq!(Wall::Bottom.position(), Vec2 { x: 0, y: -5_000_000 });
    assert_eq!(Wall::Left.position(), Vec2 { x: -8_000_000, y: 0 });
    assert_eq!(Wall::Right.position(), Vec2 { x: 8_000_000, y: 0 });
}

#[test]
fn walls_span_the_board() {
    assert_eq!(Wall::Top.size(), Vec2 { x: 16_000_000, y: 100_000 });
    assert_eq!(Wall::Bottom.size(), Vec2 { x: 16_000_000, y: 100_000 });
    assert_eq!(Wall::Left.size(), Vec2 { x: 100_000, y: 10_000_000 });
    assert_eq!(Wall::Right.size(), Vec2 { x: 100_000, y: 10_000_000 });
}

#[test]
fn board_has_four_walls() {
    assert_eq!(spawn_walls(), vec![Wall::Top, Wall::Bottom, Wall::Left, Wall::Right]);
}

#[test]
fn centre_line_has_eight_dashes_centred_on_the_board() {
    assert_eq!(
        spawn_center_line(),
        vec![
            -4_200_000, -3_000_000, -1_800_000, -600_000, 600_000, 1_800_000, 3_000_000,
            4_200_000
        ]
    );
}
