//! 16.16 fixed-point scalars: the numeric ground the transform algebra
//! stands on. A value `x` stands for the real number `x / 65536`.

use vstd::prelude::*;

verus! {

/// The fixed-point representation of one: 2^16.
pub const ONE: i64 = 65536;

/// Magnitude bound on rotation-matrix entries: rotation entries stand for
/// reals in [-1, 1].
pub const ROT_MAX: i64 = 65536;

/// Magnitude bound on translation entries: 2^40 fixed-point units.
pub const TRS_MAX: i64 = 0x100_0000_0000;

/// Division by 2^16 truncating toward zero, on mathematical integers.
pub open spec fn sdiv(x: int) -> int {
    if x >= 0 {
        x / 65536
    } else {
        -((-x) / 65536)
    }
}

/// Clamp `x` into `[-bound, bound]`.
pub open spec fn sclamp(x: int, bound: int) -> int {
    if x < -bound {
        -bound
    } else if x > bound {
        bound
    } else {
        x
    }
}

/// Magnitude of a product is bounded by the product of the bounds.
pub proof fn lemma_mul_bound(x: int, y: int, bx: int, by: int)
    requires
        -bx <= x <= bx,
        -by <= y <= by,
        0 <= bx,
        0 <= by,
    ensures
        -(bx * by) <= x * y <= bx * by,
{
    assert(-(bx * by) <= x * y <= bx * by) by (nonlinear_arith)
        requires
            -bx <= x <= bx,
            -by <= y <= by,
            0 <= bx,
            0 <= by,
    ;
}

/// Truncating division shrinks the magnitude: |sdiv(x)| <= |x| / 65536,
/// stated against an explicit bound.
pub proof fn lemma_sdiv_bound(x: int, b: int)
    requires
        -b <= x <= b,
        0 <= b,
    ensures
        -b <= sdiv(x) <= b,
        -(b / 65536 + 1) <= sdiv(x) <= b / 65536 + 1,
{
    assert(x >= 0 ==> 0 <= x / 65536 <= x && x / 65536 <= b / 65536) by (nonlinear_arith)
        requires
            x <= b,
    ;
    assert(x < 0 ==> 0 <= (-x) / 65536 <= -x && (-x) / 65536 <= b / 65536) by (nonlinear_arith)
        requires
            -b <= x,
    ;
}

/// Scale a product of two fixed-point values back down: truncating division
/// by 2^16, toward zero.
pub fn scale_down(x: i64) -> (r: i64)
    requires
        x != i64::MIN,
    ensures
        r == sdiv(x as int),
{
    proof {
        lemma_sdiv_bound(x as int, if x >= 0 { x as int } else { -(x as int) });
    }
    if x >= 0 {
        x / 65536
    } else {
        -((-x) / 65536)
    }
}

/// Clamp `x` into `[-bound, bound]`.
pub fn clamp(x: i64, bound: i64) -> (r: i64)
    requires
        0 <= bound,
    ensures
        r == sclamp(x as int, bound as int),
        -bound <= r <= bound,
{
    if x < -bound {
        -bound
    } else if x > bound {
        bound
    } else {
        x
    }
}

} // verus!
