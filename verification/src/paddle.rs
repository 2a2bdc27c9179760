//! The paddles as bodies: where they stand, the shape of their curved
//! face, and the short punch forward with which they strike the ball.

use vstd::prelude::*;
use crate::ball::Vec2;
use crate::num::{clamp, lemma_product_bound, lemma_quotient_bound};
use crate::player::{PaddleConfig, Player};
use crate::score::Collision;

verus! {

/// The punch of a paddle: whether it is forward, for how long yet, and
/// where it belongs.
#[derive(Clone, Copy, Debug, PartialEq, Eq, Structural)]
pub struct PunchState {
    /// Nanoseconds until the paddle goes back.
    pub remaining: u64,
    /// The paddle is forward.
    pub is_punching: bool,
    /// Where the paddle stands when it is not forward.
    pub rest_x: i32,
}

impl Default for PunchState {
    fn default() -> (punch: PunchState)
        ensures
            punch == (PunchState { remaining: 0, is_punching: false, rest_x: 0 }),
    {
        PunchState { remaining: 0, is_punching: false, rest_x: 0 }
    }
}

/// A paddle on the board, under its handle.
#[derive(Clone, Copy, Debug, PartialEq, Eq, Structural)]
pub struct Paddle {
    pub entity: u64,
    /// Where the paddle stands now.
    pub x: i32,
    pub punch: PunchState,
}

/// Where the paddle of `player` stands: player one on the left, player
/// two on the right.
pub open spec fn home_x(config: PaddleConfig, player: Player) -> i32 {
    match player {
        Player::P1 => config.left_x,
        Player::P2 => config.right_x,
    }
}

impl Paddle {
    /// The paddle of `player` at rest at its home.
    pub open spec fn at_home(entity: u64, config: PaddleConfig, player: Player) -> Paddle {
        Paddle {
            entity,
            x: home_x(config, player),
            punch: PunchState { remaining: 0, is_punching: false, rest_x: home_x(config, player) },
        }
    }

    /// The paddle as it strikes: moved toward the centre line by the
    /// punch distance, within the range of a coordinate, and forward for
    /// the time of a punch.
    pub open spec fn struck(self, config: PaddleConfig) -> Paddle {
        Paddle {
            entity: self.entity,
            x: clamp(
                if self.x < 0 {
                    self.x + config.punch_distance
                } else {
                    self.x - config.punch_distance
                },
                i32::MIN as int,
                i32::MAX as int,
            ) as i32,
            punch: PunchState {
                remaining: config.punch_duration,
                is_punching: true,
                rest_x: self.punch.rest_x,
            },
        }
    }

    /// The paddle after `delta` nanoseconds: a paddle that is forward
    /// goes back to where it belongs when its time has run out.
    pub open spec fn recoiled(self, delta: u64) -> Paddle {
        if !self.punch.is_punching {
            self
        } else if self.punch.remaining <= delta {
            Paddle {
                entity: self.entity,
                x: self.punch.rest_x,
                punch: PunchState { remaining: 0, is_punching: false, rest_x: self.punch.rest_x },
            }
        } else {
            Paddle {
                entity: self.entity,
                x: self.x,
                punch: PunchState {
                    remaining: (self.punch.remaining - delta) as u64,
                    is_punching: true,
                    rest_x: self.punch.rest_x,
                },
            }
        }
    }

    /// Lets the paddle strike.
    pub fn strike(self, config: &PaddleConfig) -> (after: Paddle)
        ensures
            after == self.struck(*config),
    {
        let moved: i64 = if self.x < 0 {
            self.x as i64 + config.punch_distance as i64
        } else {
            self.x as i64 - config.punch_distance as i64
        };
        let x: i32 = if moved < i32::MIN as i64 {
            i32::MIN
        } else if moved > i32::MAX as i64 {
            i32::MAX
        } else {
            moved as i32
        };
        Paddle {
            entity: self.entity,
            x,
            punch: PunchState {
                remaining: config.punch_duration,
                is_punching: true,
                rest_x: self.punch.rest_x,
            },
        }
    }
}

/// Sets up the paddle of `player` at its home.
pub fn create_paddle(entity: u64, config: &PaddleConfig, player: Player) -> (paddle: Paddle)
    ensures
        paddle == Paddle::at_home(entity, *config, player),
{
    let x = match player {
        Player::P1 => config.left_x,
        Player::P2 => config.right_x,
    };
    Paddle { entity, x, punch: PunchState { remaining: 0, is_punching: false, rest_x: x } }
}

/// The position, from `from` on, of the first paddle that takes part in
/// `collision` and is not forward.
pub open spec fn ready_paddle(paddles: Seq<Paddle>, collision: Collision, from: int) -> Option<int>
    decreases paddles.len() - from,
{
    if from < 0 || from >= paddles.len() {
        None
    } else if collision.touches(paddles[from].entity) && !paddles[from].punch.is_punching {
        Some(from)
    } else {
        ready_paddle(paddles, collision, from + 1)
    }
}

/// The paddles after one collision: if the ball takes part in it, the
/// first paddle that does so too and is not forward strikes.
pub open spec fn punched(
    paddles: Seq<Paddle>,
    collision: Collision,
    ball: u64,
    config: PaddleConfig,
) -> Seq<Paddle> {
    if !collision.touches(ball) {
        paddles
    } else {
        match ready_paddle(paddles, collision, 0) {
            Some(at) => paddles.update(at, paddles[at].struck(config)),
            None => paddles,
        }
    }
}

/// The paddles after the collisions in `collisions`, in their order.
pub open spec fn punched_by_all(
    paddles: Seq<Paddle>,
    collisions: Seq<Collision>,
    ball: u64,
    config: PaddleConfig,
) -> Seq<Paddle>
    decreases collisions.len(),
{
    if collisions.len() == 0 {
        paddles
    } else {
        punched(
            punched_by_all(paddles, collisions.drop_last(), ball, config),
            collisions.last(),
            ball,
            config,
        )
    }
}

/// Finds the paddle that strikes on `collision`.
fn find_ready_paddle(paddles: &Vec<Paddle>, collision: Collision) -> (found: Option<usize>)
    ensures
        match found {
            Some(at) => ready_paddle(paddles@, collision, 0) == Some(at as int) && at < paddles.len(),
            None => ready_paddle(paddles@, collision, 0).is_none(),
        },
{
    let mut i: usize = 0;
    while i < paddles.len()
        invariant
            i <= paddles.len(),
            ready_paddle(paddles@, collision, 0) == ready_paddle(paddles@, collision, i as int),
        decreases paddles.len() - i,
    {
        let paddle = paddles[i];
        if (paddle.entity == collision.first || paddle.entity == collision.second)
            && !paddle.punch.is_punching {
            return Some(i);
        }
        i += 1;
    }
    None
}

/// Lets the paddles strike the ball: for each collision in which the ball
/// takes part, the first paddle that takes part too, and is not forward
/// already, punches forward. Without exactly one ball in play, handed
/// over as `ball`, nothing happens.
pub fn handle_paddle_collisions(
    config: &PaddleConfig,
    collisions: &Vec<Collision>,
    paddles: &mut Vec<Paddle>,
    ball: Option<u64>,
)
    ensures
        final(paddles)@ == (match ball {
            Some(ball) => punched_by_all(old(paddles)@, collisions@, ball, *config),
            None => old(paddles)@,
        }),
{
    let ball = match ball {
        Some(ball) => ball,
        None => {
            return ;
        },
    };
    let mut i: usize = 0;
    while i < collisions.len()
        invariant
            i <= collisions.len(),
            paddles@ == punched_by_all(old(paddles)@, collisions@.take(i as int), ball, *config),
        decreases collisions.len() - i,
    {
        let collision = collisions[i];
        proof {
            let next = collisions@.take(i + 1);
            assert(next.drop_last() == collisions@.take(i as int));
            assert(next.last() == collision);
        }
        if collision.first == ball || collision.second == ball {
            match find_ready_paddle(paddles, collision) {
                Some(at) => {
                    let struck = paddles[at].strike(config);
                    paddles.set(at, struck);
                },
                None => {},
            }
        }
        i += 1;
    }
    proof {
        assert(collisions@.take(collisions.len() as int) == collisions@);
    }
}

/// Brings a paddle back after its punch: while it is forward its time
/// runs down by `delta` nanoseconds, and when it has run out the paddle
/// stands where it belongs again.
pub fn update_paddle_punch(paddle: &mut Paddle, delta: u64)
    ensures
        *final(paddle) == old(paddle).recoiled(delta),
{
    if paddle.punch.is_punching {
        if paddle.punch.remaining <= delta {
            paddle.x = paddle.punch.rest_x;
            paddle.punch.is_punching = false;
            paddle.punch.remaining = 0;
        } else {
            paddle.punch.remaining = paddle.punch.remaining - delta;
        }
    }
}

/// The height of the lower edge of piece `index` of a face of `height`
/// cut into `total` pieces; `index == total` gives the upper edge of the
/// last piece.
pub open spec fn segment_y(index: int, total: int, height: int) -> int {
    -(height / 2) + (index * height) / total
}

/// How far the curved face stands out at the lower edge of piece
/// `index`: a parabola that is flat at both ends of the paddle and
/// `depth` deep in its middle.
pub open spec fn curve_x(index: int, total: int, depth: int) -> int {
    (4 * depth * index * (total - index)) / (total * total)
}

/// The four corners of piece `index` of the paddle's face: back and front
/// of its lower edge, then front and back of its upper edge.
pub open spec fn segment_corners(index: int, total: int, config: PaddleConfig) -> Seq<Vec2> {
    let low = segment_y(index, total, config.height as int) as i32;
    let high = segment_y(index + 1, total, config.height as int) as i32;
    seq![
        Vec2 { x: 0, y: low },
        Vec2 { x: curve_x(index, total, config.curve_depth as int) as i32, y: low },
        Vec2 { x: curve_x(index + 1, total, config.curve_depth as int) as i32, y: high },
        Vec2 { x: 0, y: high },
    ]
}

/// The height of an edge between two pieces.
fn edge_y(index: u32, total: u32, height: u32) -> (y: i32)
    requires
        0 < total,
        index <= total,
        height <= 0x7fff_ffff,
    ensures
        y == segment_y(index as int, total as int, height as int),
{
    proof {
        lemma_product_bound(index as nat, total as nat, height as nat, height as nat);
        lemma_product_bound(index as nat, 0xffff_ffff, height as nat, 0x7fff_ffff);
        lemma_quotient_bound((index * height) as nat, total as nat);
        assert((index * height) / (total as int) <= height) by (nonlinear_arith)
            requires
                index * height <= total * height,
                total > 0,
                height >= 0,
                index >= 0,
        ;
    }
    let up: u64 = index as u64 * height as u64 / total as u64;
    (up as i64 - (height / 2) as i64) as i32
}

/// How far the face stands out at an edge between two pieces.
fn edge_x(index: u32, total: u32, depth: u32) -> (x: i32)
    requires
        0 < total,
        index <= total,
        depth <= 0x7fff_ffff,
    ensures
        x == curve_x(index as int, total as int, depth as int),
{
    let rest: u32 = total - index;
    proof {
        lemma_product_bound(index as nat, 0xffff_ffff, rest as nat, 0xffff_ffff);
        lemma_product_bound(
            (4 * depth) as nat,
            0x1_ffff_fffc,
            (index * rest) as nat,
            0xffff_ffff * 0xffff_ffff,
        );
        lemma_product_bound(total as nat, 0xffff_ffff, total as nat, 0xffff_ffff);
    }
    let bulge: u128 = (4 * depth as u128) * (index as u128 * rest as u128);
    let span: u128 = total as u128 * total as u128;
    assert(bulge == 4 * depth * index * (total - index)) by (nonlinear_arith)
        requires
            bulge == (4 * depth) * (index * rest),
            rest == total - index,
    ;
    assert(span > 0) by (nonlinear_arith)
        requires
            span == total * total,
            total > 0,
    ;
    assert(bulge / span <= depth) by (nonlinear_arith)
        requires
            bulge == 4 * depth * index * (total - index),
            span == total * total,
            0 <= index <= total,
            total > 0,
            depth >= 0,
    ;
    (bulge / span) as i32
}

/// The paddle's shape can be counted out: its measures fit a coordinate,
/// and the corners of its pieces can be numbered.
pub open spec fn meshable(config: PaddleConfig) -> bool {
    &&& config.segments <= 0x3fff_ffff
    &&& config.height <= 0x7fff_ffff
    &&& config.curve_depth <= 0x7fff_ffff
}

/// Tests whether the paddle's shape can be counted out.
pub fn is_meshable(config: &PaddleConfig) -> (ok: bool)
    ensures
        ok == meshable(*config),
{
    config.segments <= 0x3fff_ffff && config.height <= 0x7fff_ffff && config.curve_depth
        <= 0x7fff_ffff
}

/// The corners of one piece of the paddle's curved face.
pub fn generate_segment_vertices(index: usize, total_segments: usize, config: &PaddleConfig) -> (corners:
    Vec<Vec2>)
    requires
        index < total_segments <= 0xffff_ffff,
        config.height <= 0x7fff_ffff,
        config.curve_depth <= 0x7fff_ffff,
    ensures
        corners@ == segment_corners(index as int, total_segments as int, *config),
{
    let i: u32 = index as u32;
    let total: u32 = total_segments as u32;
    let low = edge_y(i, total, config.height);
    let high = edge_y(i + 1, total, config.height);
    let mut corners: Vec<Vec2> = Vec::new();
    corners.push(Vec2 { x: 0, y: low });
    corners.push(Vec2 { x: edge_x(i, total, config.curve_depth), y: low });
    corners.push(Vec2 { x: edge_x(i + 1, total, config.curve_depth), y: high });
    corners.push(Vec2 { x: 0, y: high });
    assert(corners@ =~= segment_corners(index as int, total_segments as int, *config));
    corners
}

/// The corner, counted from the first corner of the first piece, that
/// stands at place `at` in the list of the triangles' corners: each piece
/// is two triangles, its corners 0, 1, 2 and 0, 2, 3.
pub open spec fn triangle_corner(at: int) -> int {
    let piece = at / 6;
    let place = at % 6;
    4 * piece + (if place == 0 || place == 3 {
        0int
    } else if place == 1 {
        1int
    } else if place == 2 || place == 4 {
        2int
    } else {
        3int
    })
}

/// The shape of a paddle: the corners of all pieces of its face, piece
/// after piece, and the triangles that fill them.
pub struct PaddleMesh {
    /// Four corners for each piece.
    pub vertices: Vec<Vec2>,
    /// Six places for each piece, each the number of a corner.
    pub indices: Vec<u32>,
}

/// Builds the shape of a paddle from its configuration.
pub fn create_paddle_mesh(config: &PaddleConfig) -> (mesh: PaddleMesh)
    requires
        meshable(*config),
    ensures
        mesh.vertices@.len() == 4 * config.segments,
        forall|i: int|
            0 <= i < config.segments ==> #[trigger] mesh.vertices@.subrange(4 * i, 4 * i + 4)
                == segment_corners(i, config.segments as int, *config),
        mesh.indices@.len() == 6 * config.segments,
        forall|at: int| 0 <= at < mesh.indices@.len() ==> mesh.indices@[at] == triangle_corner(at),
{
    let mut vertices: Vec<Vec2> = Vec::new();
    let mut indices: Vec<u32> = Vec::new();
    let mut i: usize = 0;
    while i < config.segments
        invariant
            i <= config.segments <= 0x3fff_ffff,
            config.height <= 0x7fff_ffff,
            config.curve_depth <= 0x7fff_ffff,
            vertices@.len() == 4 * i,
            forall|j: int|
                0 <= j < i ==> #[trigger] vertices@.subrange(4 * j, 4 * j + 4) == segment_corners(
                    j,
                    config.segments as int,
                    *config,
                ),
            indices@.len() == 6 * i,
            forall|at: int| 0 <= at < indices@.len() ==> indices@[at] == triangle_corner(at),
        decreases config.segments - i,
    {
        let corners = generate_segment_vertices(i, config.segments, config);
        let ghost before = vertices@;
        vertices.push(corners[0]);
        vertices.push(corners[1]);
        vertices.push(corners[2]);
        vertices.push(corners[3]);
        proof {
            assert(vertices@.subrange(4 * i, 4 * i + 4) =~= corners@);
            assert forall|j: int| 0 <= j < i implies #[trigger] vertices@.subrange(4 * j, 4 * j + 4)
                == segment_corners(j, config.segments as int, *config) by {
                assert(vertices@.subrange(4 * j, 4 * j + 4) =~= before.subrange(4 * j, 4 * j + 4));
            }
        }
        let base: u32 = i as u32 * 4;
        indices.push(base);
        indices.push(base + 1);
        indices.push(base + 2);
        indices.push(base);
        indices.push(base + 2);
        indices.push(base + 3);
        i += 1;
    }
    PaddleMesh { vertices, indices }
}

} // verus!
