//! Integer helpers shared by the rules: clamping, magnitudes and division
//! that rounds toward zero.

use vstd::prelude::*;

verus! {

/// Nanoseconds in one second.
pub const NANOS_PER_SECOND: u64 = 1_000_000_000;

/// `v` held within `lo..=hi`.
pub open spec fn clamp(v: int, lo: int, hi: int) -> int {
    if v < lo {
        lo
    } else if v > hi {
        hi
    } else {
        v
    }
}

/// The size of `v` without its sign.
pub open spec fn magnitude(v: int) -> nat {
    if v < 0 {
        (-v) as nat
    } else {
        v as nat
    }
}

/// The quotient of `a` by `b`, rounded toward zero.
pub open spec fn div_toward_zero(a: int, b: int) -> int
    recommends
        b != 0,
{
    let q = (magnitude(a) / magnitude(b)) as int;
    if (a < 0) == (b < 0) {
        q
    } else {
        -q
    }
}

/// The size of `v` without its sign.
pub(crate) fn magnitude_i32(v: i32) -> (m: u32)
    ensures
        m == magnitude(v as int),
{
    if v < 0 {
        (-(v as i64)) as u32
    } else {
        v as u32
    }
}

/// The distance between `a` and `b`.
pub(crate) fn distance(a: i64, b: i64) -> (d: u64)
    ensures
        d == magnitude(a - b),
{
    if a >= b {
        (a as i128 - b as i128) as u64
    } else {
        (b as i128 - a as i128) as u64
    }
}

/// `v` held within the range of `i64`.
pub(crate) fn saturate_i64(v: i128) -> (s: i64)
    ensures
        s == clamp(v as int, i64::MIN as int, i64::MAX as int),
{
    if v < i64::MIN as i128 {
        i64::MIN
    } else if v > i64::MAX as i128 {
        i64::MAX
    } else {
        v as i64
    }
}

/// The size of a product is the product of the sizes.
pub proof fn lemma_magnitude_of_product(a: int, b: int)
    ensures
        magnitude(a * b) == magnitude(a) * magnitude(b),
        (a * b < 0) == (a != 0 && b != 0 && ((a < 0) != (b < 0))),
{
    assert(magnitude(a * b) == magnitude(a) * magnitude(b)) by (nonlinear_arith)
        requires
            magnitude(a) == (if a < 0 { -a } else { a }),
            magnitude(b) == (if b < 0 { -b } else { b }),
            magnitude(a * b) == (if a * b < 0 { -(a * b) } else { a * b }),
    ;
    assert((a * b < 0) == (a != 0 && b != 0 && ((a < 0) != (b < 0)))) by (nonlinear_arith);
}

/// A product of bounded naturals stays under the product of the bounds.
pub proof fn lemma_product_bound(a: nat, a_max: nat, b: nat, b_max: nat)
    requires
        a <= a_max,
        b <= b_max,
    ensures
        a * b <= a_max * b_max,
{
    assert(a * b <= a_max * b_max) by (nonlinear_arith)
        requires
            0 <= a <= a_max,
            0 <= b <= b_max,
    ;
}

/// A quotient by a positive divisor is no larger than the dividend.
pub proof fn lemma_quotient_bound(a: nat, d: nat)
    requires
        d > 0,
    ensures
        a / d <= a,
        (a / d) * d <= a,
        a < (a / d + 1) * d,
{
    assert(a / d <= a && (a / d) * d <= a && a < (a / d + 1) * d) by (nonlinear_arith)
        requires
            d > 0,
            a >= 0,
    ;
}

/// Division toward zero leaves a remainder smaller than the divisor, on
/// the dividend's side of zero.
pub proof fn lemma_div_toward_zero(a: int, b: int)
    requires
        b != 0,
    ensures
        magnitude(a - div_toward_zero(a, b) * b) < magnitude(b),
        magnitude(div_toward_zero(a, b) * b) <= magnitude(a),
        magnitude(div_toward_zero(a, b)) == magnitude(a) / magnitude(b),
{
    let q = (magnitude(a) / magnitude(b)) as int;
    let t = div_toward_zero(a, b);
    lemma_quotient_bound(magnitude(a), magnitude(b));
    let ma = magnitude(a) as int;
    let mb = magnitude(b) as int;
    assert(q * mb <= ma < (q + 1) * mb);
    assert(magnitude(a - t * b) < magnitude(b) && magnitude(t * b) <= magnitude(a))
        by (nonlinear_arith)
        requires
            q >= 0,
            mb > 0,
            ma >= 0,
            q * mb <= ma < (q + 1) * mb,
            ma == (if a < 0 { -a } else { a }),
            mb == (if b < 0 { -b } else { b }),
            t == (if (a < 0) == (b < 0) { q } else { -q }),
            magnitude(a - t * b) == (if a - t * b < 0 { -(a - t * b) } else { a - t * b }),
            magnitude(t * b) == (if t * b < 0 { -(t * b) } else { t * b }),
            magnitude(a) == ma,
            magnitude(b) == mb,
    ;
}

} // verus!
