//! The ball: where it is, how fast it moves, and how it is put in play.

use vstd::prelude::*;
use crate::num::{lemma_product_bound, magnitude, magnitude_i32};

verus! {

/// One world unit, in the millionths that lengths are counted in.
pub const UNIT: i32 = 1_000_000;

/// The slowest the ball may move, and the speed of a serve.
pub const MIN_VELOCITY: i32 = 7_000_000;

/// The fastest the ball may move.
pub const MAX_VELOCITY: i32 = 20_000_000;

/// A point or a displacement in the plane.
#[derive(Clone, Copy, Debug, PartialEq, Eq, Structural)]
pub struct Vec2 {
    pub x: i32,
    pub y: i32,
}

/// The ball in flight.
#[derive(Clone, Copy, Debug, PartialEq, Eq, Structural)]
pub struct Ball {
    pub position: Vec2,
    pub velocity: Vec2,
}

/// The ball as a serve leaves it: at the centre of the board, moving
/// horizontally at `MIN_VELOCITY`, to the right when player one serves and
/// to the left when player two does.
pub open spec fn served_ball(served_by_p1: bool) -> Ball {
    Ball {
        position: Vec2 { x: 0, y: 0 },
        velocity: Vec2 { x: if served_by_p1 { MIN_VELOCITY } else { (-MIN_VELOCITY) as i32 }, y: 0 },
    }
}

/// Puts a new ball in play for the given server.
pub fn create_ball(served_by_p1: bool) -> (ball: Ball)
    ensures
        ball == served_ball(served_by_p1),
{
    let vx: i32 = if served_by_p1 { MIN_VELOCITY } else { -MIN_VELOCITY };
    Ball { position: Vec2 { x: 0, y: 0 }, velocity: Vec2 { x: vx, y: 0 } }
}

/// The square of the ball's speed.
pub open spec fn speed_squared(v: Vec2) -> int {
    v.x * v.x + v.y * v.y
}

/// `k` is `|c| * s / sqrt(n)` rounded down: the largest natural number
/// whose square times `n` does not exceed `c * c * s * s`.
pub open spec fn scaled_down(k: int, c: int, s: int, n: int) -> bool {
    &&& 0 <= k
    &&& k * k * n <= c * c * s * s
    &&& c * c * s * s < (k + 1) * (k + 1) * n
}

/// `k` is `|c| * s / sqrt(n)` rounded up: the smallest natural number
/// whose square times `n` reaches `c * c * s * s`.
pub open spec fn scaled_up(k: int, c: int, s: int, n: int) -> bool {
    &&& 0 <= k
    &&& c * c * s * s <= k * k * n
    &&& k > 0 ==> (k - 1) * (k - 1) * n < c * c * s * s
}

/// `r` is the component `c` of a velocity of squared speed `n`, brought
/// to the speed `s`: it keeps the sign of `c`, and its size is
/// `|c| * s / sqrt(n)`, rounded up if `up` and down if not.
pub open spec fn component_rescaled(r: int, c: int, s: int, n: int, up: bool) -> bool {
    &&& c >= 0 ==> r >= 0
    &&& c <= 0 ==> r <= 0
    &&& if up {
        scaled_up(magnitude(r) as int, c, s, n)
    } else {
        scaled_down(magnitude(r) as int, c, s, n)
    }
}

/// `r` is the velocity `v` brought to the speed `s`, each component
/// rounded away from zero if `up` and toward zero if not.
pub open spec fn rescaled(r: Vec2, v: Vec2, s: int, up: bool) -> bool {
    &&& component_rescaled(r.x as int, v.x as int, s, speed_squared(v), up)
    &&& component_rescaled(r.y as int, v.y as int, s, speed_squared(v), up)
}

/// How the ball's speed is kept in bounds.
#[derive(Clone, Copy, Debug, PartialEq, Eq, Structural)]
pub enum SpeedPolicy {
    /// The speed is kept within `min..=max`.
    Range { min: i32, max: i32 },
    /// The speed is brought back to `target` when it is off by more than
    /// `tolerance`.
    Target { target: i32, tolerance: i32 },
}

impl SpeedPolicy {
    /// The speeds are not negative, and the range is not empty.
    pub open spec fn wf(self) -> bool {
        match self {
            SpeedPolicy::Range { min, max } => 0 <= min <= max,
            SpeedPolicy::Target { target, tolerance } => 0 <= target && 0 <= tolerance,
        }
    }

    /// Tests whether the policy is well formed.
    pub fn is_well_formed(&self) -> (ok: bool)
        ensures
            ok == self.wf(),
    {
        match *self {
            SpeedPolicy::Range { min, max } => 0 <= min && min <= max,
            SpeedPolicy::Target { target, tolerance } => 0 <= target && 0 <= tolerance,
        }
    }

    /// The policy of the standard game: `MIN_VELOCITY..=MAX_VELOCITY`.
    pub open spec fn standard() -> SpeedPolicy {
        SpeedPolicy::Range { min: MIN_VELOCITY, max: MAX_VELOCITY }
    }

    /// The speed that a ball of velocity `v` is to be brought to, or
    /// nothing where it is left as it is. A ball at rest is always left.
    pub open spec fn wanted_speed(self, v: Vec2) -> Option<int> {
        let n = speed_squared(v);
        match self {
            SpeedPolicy::Range { min, max } => if n == 0 {
                None
            } else if n < min * min {
                Some(min as int)
            } else if n > max * max {
                Some(max as int)
            } else {
                None
            },
            SpeedPolicy::Target { target, tolerance } => if n == 0 {
                None
            } else if (target > tolerance && n < (target - tolerance) * (target - tolerance)) || n
                > (target + tolerance) * (target + tolerance) {
                Some(target as int)
            } else {
                None
            },
        }
    }

    /// A squared speed `n` that the policy is content with.
    pub open spec fn in_band(self, n: int) -> bool {
        match self {
            SpeedPolicy::Range { min, max } => min * min <= n <= max * max,
            SpeedPolicy::Target { target, tolerance } => {
                &&& n <= (target + tolerance) * (target + tolerance)
                &&& target > tolerance ==> (target - tolerance) * (target - tolerance) <= n
            },
        }
    }

    /// The band is wide enough to hold a velocity whose two components
    /// were each rounded to a whole number: two units at least.
    pub open spec fn has_room(self) -> bool {
        match self {
            SpeedPolicy::Range { min, max } => min + 2 <= max,
            SpeedPolicy::Target { target, tolerance } => tolerance >= 2,
        }
    }

    /// What the governor makes of the velocity `v`: `r`.
    pub open spec fn governs(self, v: Vec2, r: Vec2) -> bool {
        match self.wanted_speed(v) {
            None => r == v,
            Some(s) => rescaled(r, v, s, speed_squared(v) < s * s),
        }
    }
}

/// The size of one component after the velocity is brought to speed `s`.
fn rescale_size(c: u32, s: u32, n: u64, up: bool) -> (k: u32)
    requires
        n > 0,
        c * c <= n,
        n <= 0x8000_0000_0000_0000,
        s <= 0x7fff_ffff,
        c <= 0x8000_0000,
    ensures
        k <= s,
        if up {
            scaled_up(k as int, c as int, s as int, n as int)
        } else {
            scaled_down(k as int, c as int, s as int, n as int)
        },
{
    proof {
        lemma_product_bound(c as nat, 0x8000_0000, c as nat, 0x8000_0000);
        lemma_product_bound(s as nat, 0x7fff_ffff, s as nat, 0x7fff_ffff);
        lemma_product_bound(
            (c * c) as nat,
            0x8000_0000 * 0x8000_0000,
            (s * s) as nat,
            0x7fff_ffff * 0x7fff_ffff,
        );
    }
    let goal: u128 = (c as u128 * c as u128) * (s as u128 * s as u128);
    assert(goal == c * c * s * s) by (nonlinear_arith)
        requires
            goal == (c * c) * (s * s),
    ;
    assert(goal < (s + 1) * (s + 1) * n) by (nonlinear_arith)
        requires
            goal == c * c * s * s,
            0 <= c * c <= n,
            s >= 0,
            n > 0,
    ;
    let mut lo: u64 = 0;
    let mut hi: u64 = s as u64 + 1;
    assert(lo * lo * n == 0) by (nonlinear_arith)
        requires
            lo == 0,
    ;
    while hi - lo > 1
        invariant
            lo < hi <= s + 1,
            s <= 0x7fff_ffff,
            n <= 0x8000_0000_0000_0000,
            lo * lo * n <= goal,
            goal < hi * hi * n,
        decreases hi - lo,
    {
        let mid: u64 = lo + (hi - lo) / 2;
        proof {
            lemma_product_bound(mid as nat, 0x7fff_ffff, mid as nat, 0x7fff_ffff);
            lemma_product_bound(
                (mid * mid) as nat,
                0x7fff_ffff * 0x7fff_ffff,
                n as nat,
                0x8000_0000_0000_0000,
            );
        }
        let reach: u128 = (mid as u128 * mid as u128) * n as u128;
        if reach <= goal {
            lo = mid;
        } else {
            hi = mid;
        }
    }
    proof {
        lemma_product_bound(lo as nat, 0x7fff_ffff, lo as nat, 0x7fff_ffff);
        lemma_product_bound(
            (lo * lo) as nat,
            0x7fff_ffff * 0x7fff_ffff,
            n as nat,
            0x8000_0000_0000_0000,
        );
    }
    let exact = (lo as u128 * lo as u128) * n as u128 == goal;
    if up && !exact {
        assert(lo < s) by (nonlinear_arith)
            requires
                lo <= s,
                lo * lo * n < goal,
                goal == c * c * s * s,
                0 <= c * c <= n,
                n > 0,
                s >= 0,
        ;
        assert((lo + 1 - 1) * (lo + 1 - 1) * n == lo * lo * n);
        (lo + 1) as u32
    } else {
        proof {
            if up && lo > 0 {
                assert((lo - 1) * (lo - 1) * n < lo * lo * n) by (nonlinear_arith)
                    requires
                        lo > 0,
                        n > 0,
                ;
            }
        }
        lo as u32
    }
}

/// One component of the velocity after it is brought to speed `s`.
fn rescale_component(c: i32, s: i32, n: u64, up: bool) -> (r: i32)
    requires
        n > 0,
        c * c <= n,
        n <= 0x8000_0000_0000_0000,
        s >= 0,
    ensures
        component_rescaled(r as int, c as int, s as int, n as int, up),
{
    let size = magnitude_i32(c);
    assert(size * size == c * c) by (nonlinear_arith)
        requires
            size == c || size == -c,
    ;
    let k = rescale_size(size, s as u32, n, up);
    assert(size * size * s * s == c * c * s * s) by (nonlinear_arith)
        requires
            size * size == c * c,
    ;
    assert(c == 0 ==> k == 0) by (nonlinear_arith)
        requires
            n > 0,
            k >= 0,
            c == 0 ==> c * c * s * s == 0,
            if up {
                k > 0 ==> (k - 1) * (k - 1) * n < c * c * s * s
            } else {
                k * k * n <= c * c * s * s
            },
    ;
    if c >= 0 {
        k as i32
    } else {
        -(k as i32)
    }
}

/// Keeps the ball's speed in bounds: a ball that is too slow or too fast
/// for `policy` has its velocity rescaled, its direction kept; a ball at
/// rest, or at a speed that the policy is content with, is left as it is.
pub fn govern_velocity(policy: SpeedPolicy, velocity: Vec2) -> (governed: Vec2)
    requires
        policy.wf(),
    ensures
        policy.governs(velocity, governed),
{
    proof {
        lemma_product_bound(magnitude(velocity.x as int), 0x8000_0000, magnitude(velocity.x as int), 0x8000_0000);
        lemma_product_bound(magnitude(velocity.y as int), 0x8000_0000, magnitude(velocity.y as int), 0x8000_0000);
    }
    let sx: u64 = magnitude_i32(velocity.x) as u64;
    let sy: u64 = magnitude_i32(velocity.y) as u64;
    let n: u64 = sx * sx + sy * sy;
    assert(n == speed_squared(velocity)) by (nonlinear_arith)
        requires
            n == sx * sx + sy * sy,
            sx == velocity.x || sx == -velocity.x,
            sy == velocity.y || sy == -velocity.y,
            speed_squared(velocity) == velocity.x * velocity.x + velocity.y * velocity.y,
    ;
    if n == 0 {
        return velocity;
    }
    let wanted: Option<i32> = match policy {
        SpeedPolicy::Range { min, max } => {
            proof {
                lemma_product_bound(min as nat, 0x7fff_ffff, min as nat, 0x7fff_ffff);
                lemma_product_bound(max as nat, 0x7fff_ffff, max as nat, 0x7fff_ffff);
            }
            if n < min as u64 * min as u64 {
                Some(min)
            } else if n > max as u64 * max as u64 {
                Some(max)
            } else {
                None
            }
        },
        SpeedPolicy::Target { target, tolerance } => {
            let high: u64 = target as u64 + tolerance as u64;
            proof {
                lemma_product_bound(high as nat, 0xffff_fffe, high as nat, 0xffff_fffe);
            }
            let too_fast = n > high * high;
            let too_slow = if target > tolerance {
                let low: u64 = (target - tolerance) as u64;
                proof {
                    lemma_product_bound(low as nat, 0x7fff_ffff, low as nat, 0x7fff_ffff);
                }
                n < low * low
            } else {
                false
            };
            if too_slow || too_fast {
                Some(target)
            } else {
                None
            }
        },
    };
    match wanted {
        None => velocity,
        Some(s) => {
            proof {
                lemma_product_bound(s as nat, 0x7fff_ffff, s as nat, 0x7fff_ffff);
            }
            let up = n < s as u64 * s as u64;
            assert(velocity.x * velocity.x <= n && velocity.y * velocity.y <= n) by (nonlinear_arith)
                requires
                    n == velocity.x * velocity.x + velocity.y * velocity.y,
            ;
            let x = rescale_component(velocity.x, s, n, up);
            let y = rescale_component(velocity.y, s, n, up);
            Vec2 { x, y }
        },
    }
}

/// Keeps the speed of the ball in play within the bounds of the standard
/// game.
pub fn maintain_ball_velocity(ball: &mut Ball)
    ensures
        final(ball).position == old(ball).position,
        SpeedPolicy::standard().governs(old(ball).velocity, final(ball).velocity),
{
    ball.velocity = govern_velocity(
        SpeedPolicy::Range { min: MIN_VELOCITY, max: MAX_VELOCITY },
        ball.velocity,
    );
}

/// Squares of natural numbers grow with the numbers.
proof fn lemma_square_grows(a: int, b: int)
    requires
        0 <= a <= b,
    ensures
        a * a <= b * b,
{
    assert(a * a <= b * b) by (nonlinear_arith)
        requires
            0 <= a <= b,
    ;
}

/// Only one size is `|c| * s / sqrt(n)` rounded down, and only one is it
/// rounded up.
proof fn lemma_scaled_is_unique(j: int, k: int, c: int, s: int, n: int, up: bool)
    requires
        n > 0,
        if up {
            scaled_up(j, c, s, n) && scaled_up(k, c, s, n)
        } else {
            scaled_down(j, c, s, n) && scaled_down(k, c, s, n)
        },
    ensures
        j == k,
{
    let goal = c * c * s * s;
    if up {
        if j < k {
            assert(j * j * n <= (k - 1) * (k - 1) * n) by (nonlinear_arith)
                requires
                    0 <= j <= k - 1,
                    n > 0,
            ;
        }
        if k < j {
            assert(k * k * n <= (j - 1) * (j - 1) * n) by (nonlinear_arith)
                requires
                    0 <= k <= j - 1,
                    n > 0,
            ;
        }
    } else {
        if j < k {
            assert((j + 1) * (j + 1) * n <= k * k * n) by (nonlinear_arith)
                requires
                    0 <= j + 1 <= k,
                    n > 0,
            ;
        }
        if k < j {
            assert((k + 1) * (k + 1) * n <= j * j * n) by (nonlinear_arith)
                requires
                    0 <= k + 1 <= j,
                    n > 0,
            ;
        }
    }
}

/// Two sizes rounded down: their squares sum to `s * s` at most and to
/// the square of `s - 2` at least.
proof fn lemma_rounded_down_speed(k: int, l: int, x: int, y: int, s: int, n: int)
    requires
        n > 0,
        n == x * x + y * y,
        s >= 0,
        scaled_down(k, x, s, n),
        scaled_down(l, y, s, n),
    ensures
        k * k + l * l <= s * s,
        s >= 2 ==> (s - 2) * (s - 2) <= k * k + l * l,
{
    let kk = k * k;
    let ll = l * l;
    let ss = s * s;
    let pp = (k + 1) * (k + 1);
    let qq = (l + 1) * (l + 1);
    let gx = x * x * s * s;
    let gy = y * y * s * s;
    assert(gx + gy == n * ss) by (nonlinear_arith)
        requires
            n == x * x + y * y,
            gx == x * x * s * s,
            gy == y * y * s * s,
            ss == s * s,
    ;
    assert(kk + ll <= ss) by (nonlinear_arith)
        requires
            kk * n <= gx,
            ll * n <= gy,
            gx + gy == n * ss,
            n > 0,
    ;
    assert(pp + qq > ss) by (nonlinear_arith)
        requires
            gx < pp * n,
            gy < qq * n,
            gx + gy == n * ss,
            n > 0,
    ;
    if s >= 2 {
        let t = k + l + 2;
        let r = pp + qq;
        let d = r - ss;
        assert(t * t <= 2 * r) by (nonlinear_arith)
            requires
                t == (k + 1) + (l + 1),
                r == (k + 1) * (k + 1) + (l + 1) * (l + 1),
        ;
        assert(kk + ll == r - 2 * t + 2) by (nonlinear_arith)
            requires
                kk == k * k,
                ll == l * l,
                t == k + l + 2,
                r == (k + 1) * (k + 1) + (l + 1) * (l + 1),
        ;
        let e = d + 4 * s - 2;
        assert(e * e > 8 * d + 8 * ss) by (nonlinear_arith)
            requires
                e == d + 4 * s - 2,
                ss == s * s,
                d >= 1,
                s >= 2,
        ;
        if 2 * t > e {
            assert((2 * t) * (2 * t) > e * e) by (nonlinear_arith)
                requires
                    2 * t > e,
                    e >= 0,
            ;
            assert((2 * t) * (2 * t) == 4 * (t * t)) by (nonlinear_arith);
            assert(false);
        }
        assert((s - 2) * (s - 2) == ss - 4 * s + 4) by (nonlinear_arith)
            requires
                ss == s * s,
        ;
    }
}

/// Two sizes rounded up: their squares sum to `s * s` at least and to
/// the square of `s + 2` at most.
proof fn lemma_rounded_up_speed(k: int, l: int, x: int, y: int, s: int, n: int)
    requires
        n > 0,
        n == x * x + y * y,
        s >= 0,
        scaled_up(k, x, s, n),
        scaled_up(l, y, s, n),
    ensures
        s * s <= k * k + l * l,
        k * k + l * l <= (s + 2) * (s + 2),
{
    let kk = k * k;
    let ll = l * l;
    let ss = s * s;
    let gx = x * x * s * s;
    let gy = y * y * s * s;
    assert(gx + gy == n * ss && 0 <= gx && 0 <= gy) by (nonlinear_arith)
        requires
            n == x * x + y * y,
            gx == x * x * s * s,
            gy == y * y * s * s,
            ss == s * s,
    ;
    assert(ss <= kk + ll) by (nonlinear_arith)
        requires
            gx <= kk * n,
            gy <= ll * n,
            gx + gy == n * ss,
            n > 0,
    ;
    let uu = if k > 0 { (k - 1) * (k - 1) } else { 0 };
    let ww = if l > 0 { (l - 1) * (l - 1) } else { 0 };
    assert(uu + ww <= ss) by (nonlinear_arith)
        requires
            uu * n <= gx,
            ww * n <= gy,
            gx + gy == n * ss,
            n > 0,
    ;
    assert(uu >= 0 && ww >= 0) by (nonlinear_arith)
        requires
            uu == (if k > 0 { (k - 1) * (k - 1) } else { 0 }),
            ww == (if l > 0 { (l - 1) * (l - 1) } else { 0 }),
    ;
    if k > 0 {
        if k - 1 > s {
            lemma_square_grows(s + 1, k - 1);
            assert((s + 1) * (s + 1) > ss) by (nonlinear_arith)
                requires
                    ss == s * s,
                    s >= 0,
            ;
        }
        assert(kk == uu + 2 * k - 1) by (nonlinear_arith)
            requires
                kk == k * k,
                uu == (k - 1) * (k - 1),
        ;
    } else {
        assert(kk == 0) by (nonlinear_arith)
            requires
                kk == k * k,
                k == 0,
        ;
    }
    if l > 0 {
        if l - 1 > s {
            lemma_square_grows(s + 1, l - 1);
            assert((s + 1) * (s + 1) > ss) by (nonlinear_arith)
                requires
                    ss == s * s,
                    s >= 0,
            ;
        }
        assert(ll == ww + 2 * l - 1) by (nonlinear_arith)
            requires
                ll == l * l,
                ww == (l - 1) * (l - 1),
        ;
    } else {
        assert(ll == 0) by (nonlinear_arith)
            requires
                ll == l * l,
                l == 0,
        ;
    }
    assert((s + 2) * (s + 2) == ss + 4 * s + 4) by (nonlinear_arith)
        requires
            ss == s * s,
    ;
}

/// The squared speed of a velocity, over the sizes of its components.
proof fn lemma_speed_squared_of_sizes(v: Vec2)
    ensures
        speed_squared(v) == magnitude(v.x as int) * magnitude(v.x as int) + magnitude(v.y as int)
            * magnitude(v.y as int),
        speed_squared(v) >= 0,
{
    let a = magnitude(v.x as int) as int;
    let b = magnitude(v.y as int) as int;
    assert(a * a == v.x * v.x) by (nonlinear_arith)
        requires
            a == v.x || a == -v.x,
    ;
    assert(b * b == v.y * v.y) by (nonlinear_arith)
        requires
            b == v.y || b == -v.y,
    ;
    assert(a * a >= 0 && b * b >= 0) by (nonlinear_arith);
}

/// The governor's answer is the only one that its contract admits.
pub proof fn law_governor_is_exact(policy: SpeedPolicy, v: Vec2, a: Vec2, b: Vec2)
    requires
        policy.governs(v, a),
        policy.governs(v, b),
    ensures
        a == b,
{
    lemma_speed_squared_of_sizes(v);
    match policy.wanted_speed(v) {
        None => {},
        Some(s) => {
            let n = speed_squared(v);
            let up = n < s * s;
            lemma_scaled_is_unique(
                magnitude(a.x as int) as int,
                magnitude(b.x as int) as int,
                v.x as int,
                s,
                n,
                up,
            );
            lemma_scaled_is_unique(
                magnitude(a.y as int) as int,
                magnitude(b.y as int) as int,
                v.y as int,
                s,
                n,
                up,
            );
        },
    }
}

/// Whatever speed a moving ball comes in with, it leaves the governor
/// within the policy's band, provided the band has room for the rounding
/// of the two components.
pub proof fn law_governed_speed_in_band(policy: SpeedPolicy, v: Vec2, r: Vec2)
    requires
        policy.wf(),
        policy.has_room(),
        speed_squared(v) != 0,
        policy.governs(v, r),
    ensures
        policy.in_band(speed_squared(r)),
{
    lemma_speed_squared_of_sizes(v);
    lemma_speed_squared_of_sizes(r);
    let n = speed_squared(v);
    let k = magnitude(r.x as int) as int;
    let l = magnitude(r.y as int) as int;
    match policy.wanted_speed(v) {
        None => {
            match policy {
                SpeedPolicy::Range { min, max } => {},
                SpeedPolicy::Target { target, tolerance } => {},
            }
        },
        Some(s) => {
            if n < s * s {
                lemma_rounded_up_speed(k, l, v.x as int, v.y as int, s, n);
            } else {
                lemma_rounded_down_speed(k, l, v.x as int, v.y as int, s, n);
            }
            match policy {
                SpeedPolicy::Range { min, max } => {
                    lemma_square_grows(min as int, max as int);
                    if n < min * min {
                        lemma_square_grows(min + 2, max as int);
                    } else {
                        lemma_square_grows(min as int, max - 2);
                    }
                },
                SpeedPolicy::Target { target, tolerance } => {
                    lemma_square_grows(target as int, target + tolerance);
                    lemma_square_grows(target + 2, target + tolerance);
                    if target > tolerance {
                        lemma_square_grows(target - tolerance, target as int);
                        lemma_square_grows(target - tolerance, target - 2);
                    }
                },
            }
        },
    }
}

/// A ball within the band is left as it is: once the governor has
/// corrected a velocity, it corrects it no further, however often it is
/// asked.
pub proof fn law_governor_settles(policy: SpeedPolicy, v: Vec2, r: Vec2)
    requires
        policy.wf(),
        policy.in_band(speed_squared(v)),
        policy.governs(v, r),
    ensures
        r == v,
{
    lemma_speed_squared_of_sizes(v);
}

/// However often the governor is asked, a moving ball stays within the
/// band: in a trail of velocities, each the governor's answer to the one
/// before, all from the second on lie in the band, and all are the same.
pub proof fn law_governor_holds_the_band(policy: SpeedPolicy, trail: Seq<Vec2>, at: int)
    requires
        policy.wf(),
        policy.has_room(),
        trail.len() >= 2,
        speed_squared(trail[0]) != 0,
        forall|i: int| 0 <= i < trail.len() - 1 ==> policy.governs(trail[i], #[trigger] trail[i + 1]),
        1 <= at < trail.len(),
    ensures
        policy.in_band(speed_squared(trail[at])),
        trail[at] == trail[1],
    decreases at,
{
    if at == 1 {
        assert(policy.governs(trail[0], trail[0int + 1]));
        law_governed_speed_in_band(policy, trail[0], trail[1]);
    } else {
        law_governor_holds_the_band(policy, trail, at - 1);
        assert(policy.governs(trail[at - 1], trail[at - 1 + 1]));
        law_governor_settles(policy, trail[at - 1], trail[at]);
    }
}

/// The governor keeps the ball's direction: no component changes its
/// sign, a component that is zero stays zero, and the new velocity is
/// parallel to the old one up to the rounding of one coordinate: their
/// cross product is no larger than the old components taken together.
pub proof fn law_governor_keeps_direction(policy: SpeedPolicy, v: Vec2, r: Vec2)
    requires
        policy.wf(),
        policy.governs(v, r),
    ensures
        v.x >= 0 ==> r.x >= 0,
        v.x <= 0 ==> r.x <= 0,
        v.y >= 0 ==> r.y >= 0,
        v.y <= 0 ==> r.y <= 0,
        magnitude(r.x * v.y - r.y * v.x) <= magnitude(v.x as int) + magnitude(v.y as int),
{
    lemma_speed_squared_of_sizes(v);
    let n = speed_squared(v);
    let x = magnitude(v.x as int) as int;
    let y = magnitude(v.y as int) as int;
    let k = magnitude(r.x as int) as int;
    let l = magnitude(r.y as int) as int;
    match policy.wanted_speed(v) {
        None => {
            assert(r.x * v.y - r.y * v.x == 0) by (nonlinear_arith)
                requires
                    r.x == v.x,
                    r.y == v.y,
            ;
        },
        Some(s) => {
            let up = n < s * s;
            assert(x * x * s * s == v.x * v.x * s * s) by (nonlinear_arith)
                requires
                    x == v.x || x == -v.x,
            ;
            assert(y * y * s * s == v.y * v.y * s * s) by (nonlinear_arith)
                requires
                    y == v.y || y == -v.y,
            ;
            lemma_sizes_stay_parallel(k, l, x, y, s, n, up);
            assert(magnitude(r.x * v.y - r.y * v.x) == magnitude(k * y - l * x)) by (nonlinear_arith)
                requires
                    (v.x >= 0 && x == v.x && r.x >= 0 && k == r.x) || (v.x <= 0 && x == -v.x
                        && r.x <= 0 && k == -r.x),
                    (v.y >= 0 && y == v.y && r.y >= 0 && l == r.y) || (v.y <= 0 && y == -v.y
                        && r.y <= 0 && l == -r.y),
                    magnitude(r.x * v.y - r.y * v.x) == (if r.x * v.y - r.y * v.x < 0 {
                        -(r.x * v.y - r.y * v.x)
                    } else {
                        r.x * v.y - r.y * v.x
                    }),
                    magnitude(k * y - l * x) == (if k * y - l * x < 0 {
                        -(k * y - l * x)
                    } else {
                        k * y - l * x
                    }),
            ;
        },
    }
}

/// Two sizes rounded the same way from `x` and `y` are to each other as
/// `x` is to `y`, up to one unit.
proof fn lemma_sizes_stay_parallel(k: int, l: int, x: int, y: int, s: int, n: int, up: bool)
    requires
        n > 0,
        x >= 0,
        y >= 0,
        s >= 0,
        if up {
            scaled_up(k, x, s, n) && scaled_up(l, y, s, n)
        } else {
            scaled_down(k, x, s, n) && scaled_down(l, y, s, n)
        },
    ensures
        magnitude(k * y - l * x) <= x + y,
{
    // The bounds of each size: lo_k^2 * n <= x^2 s^2 <= hi_k^2 * n, strictly on one side.
    let gx = x * x * s * s;
    let gy = y * y * s * s;
    let lo_k = if up { if k > 0 { k - 1 } else { 0 } } else { k };
    let hi_k = if up { k } else { k + 1 };
    let lo_l = if up { if l > 0 { l - 1 } else { 0 } } else { l };
    let hi_l = if up { l } else { l + 1 };
    assert(gx >= 0 && gy >= 0) by (nonlinear_arith)
        requires
            gx == x * x * s * s,
            gy == y * y * s * s,
    ;
    assert(lo_k == 0 ==> lo_k * lo_k * n == 0) by (nonlinear_arith);
    assert(lo_l == 0 ==> lo_l * lo_l * n == 0) by (nonlinear_arith);
    assert(lo_k * lo_k * n <= gx && gx <= hi_k * hi_k * n);
    assert(lo_l * lo_l * n <= gy && gy <= hi_l * hi_l * n);
    // lo_k * y <= hi_l * x, from lo_k^2 n y^2 <= x^2 y^2 s^2 <= hi_l^2 n x^2
    assert((lo_k * y) * (lo_k * y) * n <= (hi_l * x) * (hi_l * x) * n) by (nonlinear_arith)
        requires
            lo_k * lo_k * n <= gx,
            gy <= hi_l * hi_l * n,
            gx == x * x * s * s,
            gy == y * y * s * s,
            x >= 0,
            y >= 0,
    ;
    assert((lo_l * x) * (lo_l * x) * n <= (hi_k * y) * (hi_k * y) * n) by (nonlinear_arith)
        requires
            lo_l * lo_l * n <= gy,
            gx <= hi_k * hi_k * n,
            gx == x * x * s * s,
            gy == y * y * s * s,
            x >= 0,
            y >= 0,
    ;
    lemma_root_of_scaled_squares(lo_k * y, hi_l * x, n);
    lemma_root_of_scaled_squares(lo_l * x, hi_k * y, n);
    assert(lo_k * y >= 0 && hi_l * x >= 0 && lo_l * x >= 0 && hi_k * y >= 0) by (nonlinear_arith)
        requires
            lo_k >= 0,
            lo_l >= 0,
            hi_k >= 0,
            hi_l >= 0,
            x >= 0,
            y >= 0,
    ;
    assert(lo_k * y <= hi_l * x);
    assert(lo_l * x <= hi_k * y);
    assert(hi_k - lo_k <= 1 && hi_l - lo_l <= 1);
    assert(k * y - l * x <= x + y && l * x - k * y <= x + y) by (nonlinear_arith)
        requires
            lo_k * y <= hi_l * x,
            lo_l * x <= hi_k * y,
            lo_k <= k <= hi_k,
            lo_l <= l <= hi_l,
            hi_k - lo_k <= 1,
            hi_l - lo_l <= 1,
            x >= 0,
            y >= 0,
    ;
}

/// Of two natural numbers, the one with the smaller square times `n` is
/// the smaller.
proof fn lemma_root_of_scaled_squares(a: int, b: int, n: int)
    requires
        n > 0,
        a * a * n <= b * b * n,
    ensures
        a >= 0 && b >= 0 ==> a <= b,
{
    if a >= 0 && b >= 0 && a > b {
        assert(a * a * n > b * b * n) by (nonlinear_arith)
            requires
                a > b,
                b >= 0,
                n > 0,
        ;
    }
}

} // verus!
