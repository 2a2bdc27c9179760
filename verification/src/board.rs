//! The board: its four walls and what each of them means to the score.

use vstd::prelude::*;
use crate::ball::Vec2;
use crate::player::Player;

verus! {

/// Width of the board.
pub const BOARD_WIDTH: i32 = 16_000_000;

/// Height of the board.
pub const BOARD_HEIGHT: i32 = 10_000_000;

/// Thickness of a wall.
pub const WALL_THICKNESS: i32 = 100_000;

/// Length of a dash of the centre line.
pub const DASH_LENGTH: i32 = 800_000;

/// Width of a dash of the centre line.
pub const DASH_WIDTH: i32 = 100_000;

/// Gap between two dashes of the centre line.
pub const DASH_GAP: i32 = 400_000;

/// The four walls of the board.
#[derive(Clone, Copy, Debug, PartialEq, Eq, Structural)]
pub enum Wall {
    /// The upper boundary.
    Top,
    /// The lower boundary.
    Bottom,
    /// The wall behind player one: a ball that reaches it scores for
    /// player two.
    Left,
    /// The wall behind player two: a ball that reaches it scores for
    /// player one.
    Right,
}

impl Wall {
    /// The side that scores when the ball reaches this wall, if any.
    pub open spec fn scorer(self) -> Option<Player> {
        match self {
            Wall::Left => Some(Player::P2),
            Wall::Right => Some(Player::P1),
            Wall::Top => None,
            Wall::Bottom => None,
        }
    }

    /// The side that scores when the ball reaches this wall, if any.
    pub fn scoring_side(self) -> (side: Option<Player>)
        ensures
            side == self.scorer(),
    {
        match self {
            Wall::Left => Some(Player::P2),
            Wall::Right => Some(Player::P1),
            Wall::Top => None,
            Wall::Bottom => None,
        }
    }

    /// Where the middle of this wall stands: the top and the bottom wall
    /// half the board's height above and below the centre, the left and
    /// the right wall half its width to either side.
    pub open spec fn centre(self) -> Vec2 {
        match self {
            Wall::Top => Vec2 { x: 0, y: (BOARD_HEIGHT / 2) as i32 },
            Wall::Bottom => Vec2 { x: 0, y: (-(BOARD_HEIGHT / 2)) as i32 },
            Wall::Left => Vec2 { x: (-(BOARD_WIDTH / 2)) as i32, y: 0 },
            Wall::Right => Vec2 { x: (BOARD_WIDTH / 2) as i32, y: 0 },
        }
    }

    /// The width and the height of this wall: the top and the bottom wall
    /// span the board's width, the left and the right wall its height.
    pub open spec fn extent(self) -> Vec2 {
        match self {
            Wall::Top => Vec2 { x: BOARD_WIDTH, y: WALL_THICKNESS },
            Wall::Bottom => Vec2 { x: BOARD_WIDTH, y: WALL_THICKNESS },
            Wall::Left => Vec2 { x: WALL_THICKNESS, y: BOARD_HEIGHT },
            Wall::Right => Vec2 { x: WALL_THICKNESS, y: BOARD_HEIGHT },
        }
    }

    /// Where the middle of this wall stands.
    pub fn position(self) -> (at: Vec2)
        ensures
            at == self.centre(),
    {
        let half_width: i32 = BOARD_WIDTH / 2;
        let half_height: i32 = BOARD_HEIGHT / 2;
        match self {
            Wall::Top => Vec2 { x: 0, y: half_height },
            Wall::Bottom => Vec2 { x: 0, y: -half_height },
            Wall::Left => Vec2 { x: -half_width, y: 0 },
            Wall::Right => Vec2 { x: half_width, y: 0 },
        }
    }

    /// The width and the height of this wall.
    pub fn size(self) -> (size: Vec2)
        ensures
            size == self.extent(),
    {
        match self {
            Wall::Top => Vec2 { x: BOARD_WIDTH, y: WALL_THICKNESS },
            Wall::Bottom => Vec2 { x: BOARD_WIDTH, y: WALL_THICKNESS },
            Wall::Left => Vec2 { x: WALL_THICKNESS, y: BOARD_HEIGHT },
            Wall::Right => Vec2 { x: WALL_THICKNESS, y: BOARD_HEIGHT },
        }
    }
}

/// The four walls, in the order in which the board is set up.
pub fn spawn_walls() -> (walls: Vec<Wall>)
    ensures
        walls@ == seq![Wall::Top, Wall::Bottom, Wall::Left, Wall::Right],
{
    let mut walls: Vec<Wall> = Vec::new();
    walls.push(Wall::Top);
    walls.push(Wall::Bottom);
    walls.push(Wall::Left);
    walls.push(Wall::Right);
    walls
}

/// The number of dashes of the centre line: as many whole cycles of a
/// dash and a gap as fit into the board's height.
pub open spec fn dash_count() -> int {
    (BOARD_HEIGHT as int) / (DASH_LENGTH + DASH_GAP)
}

/// The height of the middle of dash `i`. The dashes are centred on the
/// board as a whole, the gap after the last one left out.
pub open spec fn dash_centre(i: int) -> int {
    -((dash_count() * (DASH_LENGTH + DASH_GAP) - DASH_GAP) / 2) + i * (DASH_LENGTH + DASH_GAP)
        + DASH_LENGTH / 2
}

/// The heights of the middles of the dashes of the centre line, from the
/// lowest up.
pub fn spawn_center_line() -> (dashes: Vec<i32>)
    ensures
        dashes@.len() == dash_count(),
        forall|i: int| 0 <= i < dashes@.len() ==> dashes@[i] == dash_centre(i),
{
    let cycle: i32 = DASH_LENGTH + DASH_GAP;
    let count: i32 = BOARD_HEIGHT / cycle;
    let start: i32 = -((count * cycle - DASH_GAP) / 2);
    let mut dashes: Vec<i32> = Vec::new();
    let mut i: i32 = 0;
    while i < count
        invariant
            0 <= i <= count,
            count == dash_count(),
            count == 8,
            cycle == 1_200_000,
            start == -4_600_000,
            start == -((dash_count() * (DASH_LENGTH + DASH_GAP) - DASH_GAP) / 2),
            dashes@.len() == i,
            forall|j: int| 0 <= j < i ==> dashes@[j] == dash_centre(j),
        decreases count - i,
    {
        dashes.push(start + i * cycle + DASH_LENGTH / 2);
        i += 1;
    }
    dashes
}

} // verus!
