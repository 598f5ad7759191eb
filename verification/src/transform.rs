//! Rigid 3D poses in fixed point: a 3x3 rotation block and a translation
//! vector, composed hierarchically during scene traversal.
//!
//! Composition and inversion saturate: every produced entry is clamped back
//! into the well-formed range, so the operations are total and closed over
//! well-formed poses. For genuine rotations the clamp never binds.

use vstd::prelude::*;

use crate::fixed::{clamp, lemma_mul_bound, lemma_sdiv_bound, scale_down, sclamp, sdiv, ONE,
    ROT_MAX, TRS_MAX};

verus! {

/// A rigid pose: rotation entries `r__` (row-column, 16.16 fixed point,
/// each standing for a real in [-1, 1]) and a translation `t_`.
#[derive(Clone, Copy, PartialEq, Eq, Structural, Debug)]
pub struct Transform {
    pub rxx: i64,
    pub rxy: i64,
    pub rxz: i64,
    pub ryx: i64,
    pub ryy: i64,
    pub ryz: i64,
    pub rzx: i64,
    pub rzy: i64,
    pub rzz: i64,
    pub tx: i64,
    pub ty: i64,
    pub tz: i64,
}

impl Transform {
    /// Every rotation entry is within [-ROT_MAX, ROT_MAX] and every
    /// translation entry within [-TRS_MAX, TRS_MAX].
    pub open spec fn wf(self) -> bool {
        &&& -ROT_MAX <= self.rxx <= ROT_MAX
        &&& -ROT_MAX <= self.rxy <= ROT_MAX
        &&& -ROT_MAX <= self.rxz <= ROT_MAX
        &&& -ROT_MAX <= self.ryx <= ROT_MAX
        &&& -ROT_MAX <= self.ryy <= ROT_MAX
        &&& -ROT_MAX <= self.ryz <= ROT_MAX
        &&& -ROT_MAX <= self.rzx <= ROT_MAX
        &&& -ROT_MAX <= self.rzy <= ROT_MAX
        &&& -ROT_MAX <= self.rzz <= ROT_MAX
        &&& -TRS_MAX <= self.tx <= TRS_MAX
        &&& -TRS_MAX <= self.ty <= TRS_MAX
        &&& -TRS_MAX <= self.tz <= TRS_MAX
    }

    /// The identity pose.
    pub fn identity() -> (r: Transform)
        ensures
            r == spec_identity(),
            r.wf(),
    {
        Transform {
            rxx: ONE, rxy: 0, rxz: 0,
            ryx: 0, ryy: ONE, ryz: 0,
            rzx: 0, rzy: 0, rzz: ONE,
            tx: 0, ty: 0, tz: 0,
        }
    }

    /// A pure translation by `(x, y, z)` fixed-point units.
    pub fn translation(x: i64, y: i64, z: i64) -> (r: Transform)
        requires
            -TRS_MAX <= x <= TRS_MAX,
            -TRS_MAX <= y <= TRS_MAX,
            -TRS_MAX <= z <= TRS_MAX,
        ensures
            r == (Transform { tx: x, ty: y, tz: z, ..spec_identity() }),
            r.wf(),
    {
        Transform {
            rxx: ONE, rxy: 0, rxz: 0,
            ryx: 0, ryy: ONE, ryz: 0,
            rzx: 0, rzy: 0, rzz: ONE,
            tx: x, ty: y, tz: z,
        }
    }

    /// Compose two poses: `self * other`, applying `other` first.
    ///
    /// The rotation block is the fixed-point matrix product, each entry
    /// scaled back down and clamped into the rotation range; the translation
    /// is `self.t + self.r * other.t`, clamped into the translation range.
    pub fn compose(&self, other: &Transform) -> (r: Transform)
        requires
            self.wf(),
            other.wf(),
        ensures
            r == spec_compose(*self, *other),
            r.wf(),
    {
        let a = self;
        let b = other;
        Transform {
            rxx: rot_entry(a.rxx, a.rxy, a.rxz, b.rxx, b.ryx, b.rzx),
            rxy: rot_entry(a.rxx, a.rxy, a.rxz, b.rxy, b.ryy, b.rzy),
            rxz: rot_entry(a.rxx, a.rxy, a.rxz, b.rxz, b.ryz, b.rzz),
            ryx: rot_entry(a.ryx, a.ryy, a.ryz, b.rxx, b.ryx, b.rzx),
            ryy: rot_entry(a.ryx, a.ryy, a.ryz, b.rxy, b.ryy, b.rzy),
            ryz: rot_entry(a.ryx, a.ryy, a.ryz, b.rxz, b.ryz, b.rzz),
            rzx: rot_entry(a.rzx, a.rzy, a.rzz, b.rxx, b.ryx, b.rzx),
            rzy: rot_entry(a.rzx, a.rzy, a.rzz, b.rxy, b.ryy, b.rzy),
            rzz: rot_entry(a.rzx, a.rzy, a.rzz, b.rxz, b.ryz, b.rzz),
            tx: trs_entry(a.tx, a.rxx, a.rxy, a.rxz, b.tx, b.ty, b.tz),
            ty: trs_entry(a.ty, a.ryx, a.ryy, a.ryz, b.tx, b.ty, b.tz),
            tz: trs_entry(a.tz, a.rzx, a.rzy, a.rzz, b.tx, b.ty, b.tz),
        }
    }

    /// The inverse of a rigid pose: the transposed rotation block, and
    /// `-(r^T * t)` as the translation, scaled down and clamped.
    pub fn inverse(&self) -> (r: Transform)
        requires
            self.wf(),
        ensures
            r == spec_inverse(*self),
            r.wf(),
    {
        Transform {
            rxx: self.rxx, rxy: self.ryx, rxz: self.rzx,
            ryx: self.rxy, ryy: self.ryy, ryz: self.rzy,
            rzx: self.rxz, rzy: self.ryz, rzz: self.rzz,
            tx: inv_trs_entry(self.rxx, self.ryx, self.rzx, self.tx, self.ty, self.tz),
            ty: inv_trs_entry(self.rxy, self.ryy, self.rzy, self.tx, self.ty, self.tz),
            tz: inv_trs_entry(self.rxz, self.ryz, self.rzz, self.tx, self.ty, self.tz),
        }
    }
}

/// The identity pose, as a specification value.
pub open spec fn spec_identity() -> Transform {
    Transform {
        rxx: ONE, rxy: 0, rxz: 0,
        ryx: 0, ryy: ONE, ryz: 0,
        rzx: 0, rzy: 0, rzz: ONE,
        tx: 0, ty: 0, tz: 0,
    }
}

/// Dot product of two integer triples.
pub open spec fn dot3(a1: int, a2: int, a3: int, b1: int, b2: int, b3: int) -> int {
    a1 * b1 + a2 * b2 + a3 * b3
}

/// One rotation entry of a composition: the dot product of a row of the
/// left rotation with a column of the right one, scaled down and clamped.
pub open spec fn spec_rot_entry(a1: int, a2: int, a3: int, b1: int, b2: int, b3: int) -> i64 {
    sclamp(sdiv(dot3(a1, a2, a3, b1, b2, b3)), ROT_MAX as int) as i64
}

/// One translation entry of a composition: the left translation entry plus
/// the rotated right translation, clamped.
pub open spec fn spec_trs_entry(
    at: int,
    a1: int,
    a2: int,
    a3: int,
    b1: int,
    b2: int,
    b3: int,
) -> i64 {
    sclamp(at + sdiv(dot3(a1, a2, a3, b1, b2, b3)), TRS_MAX as int) as i64
}

/// One translation entry of an inverse: `-(column . t)`, scaled and clamped.
pub open spec fn spec_inv_trs_entry(
    c1: int,
    c2: int,
    c3: int,
    t1: int,
    t2: int,
    t3: int,
) -> i64 {
    sclamp(-sdiv(dot3(c1, c2, c3, t1, t2, t3)), TRS_MAX as int) as i64
}

/// Composition of rigid poses, `a` applied after `b`.
pub open spec fn spec_compose(a: Transform, b: Transform) -> Transform {
    Transform {
        rxx: spec_rot_entry(a.rxx as int, a.rxy as int, a.rxz as int, b.rxx as int, b.ryx as int, b.rzx as int),
        rxy: spec_rot_entry(a.rxx as int, a.rxy as int, a.rxz as int, b.rxy as int, b.ryy as int, b.rzy as int),
        rxz: spec_rot_entry(a.rxx as int, a.rxy as int, a.rxz as int, b.rxz as int, b.ryz as int, b.rzz as int),
        ryx: spec_rot_entry(a.ryx as int, a.ryy as int, a.ryz as int, b.rxx as int, b.ryx as int, b.rzx as int),
        ryy: spec_rot_entry(a.ryx as int, a.ryy as int, a.ryz as int, b.rxy as int, b.ryy as int, b.rzy as int),
        ryz: spec_rot_entry(a.ryx as int, a.ryy as int, a.ryz as int, b.rxz as int, b.ryz as int, b.rzz as int),
        rzx: spec_rot_entry(a.rzx as int, a.rzy as int, a.rzz as int, b.rxx as int, b.ryx as int, b.rzx as int),
        rzy: spec_rot_entry(a.rzx as int, a.rzy as int, a.rzz as int, b.rxy as int, b.ryy as int, b.rzy as int),
        rzz: spec_rot_entry(a.rzx as int, a.rzy as int, a.rzz as int, b.rxz as int, b.ryz as int, b.rzz as int),
        tx: spec_trs_entry(a.tx as int, a.rxx as int, a.rxy as int, a.rxz as int, b.tx as int, b.ty as int, b.tz as int),
        ty: spec_trs_entry(a.ty as int, a.ryx as int, a.ryy as int, a.ryz as int, b.tx as int, b.ty as int, b.tz as int),
        tz: spec_trs_entry(a.tz as int, a.rzx as int, a.rzy as int, a.rzz as int, b.tx as int, b.ty as int, b.tz as int),
    }
}

/// Inverse of a rigid pose.
pub open spec fn spec_inverse(a: Transform) -> Transform {
    Transform {
        rxx: a.rxx, rxy: a.ryx, rxz: a.rzx,
        ryx: a.rxy, ryy: a.ryy, ryz: a.rzy,
        rzx: a.rxz, rzy: a.ryz, rzz: a.rzz,
        tx: spec_inv_trs_entry(a.rxx as int, a.ryx as int, a.rzx as int, a.tx as int, a.ty as int, a.tz as int),
        ty: spec_inv_trs_entry(a.rxy as int, a.ryy as int, a.rzy as int, a.tx as int, a.ty as int, a.tz as int),
        tz: spec_inv_trs_entry(a.rxz as int, a.ryz as int, a.rzz as int, a.tx as int, a.ty as int, a.tz as int),
    }
}

/// Composing with the identity on either side gives the pose back.
pub proof fn lemma_identity_compose(a: Transform)
    requires
        a.wf(),
    ensures
        spec_compose(spec_identity(), a) == a,
        spec_compose(a, spec_identity()) == a,
{
    lemma_identity_compose_left(a);
    lemma_identity_compose_right(a);
}

proof fn lemma_identity_scale(x: int)
    requires
        -TRS_MAX <= x <= TRS_MAX,
    ensures
        sdiv(65536 * x) == x,
        sdiv(x * 65536) == x,
{
    assert(65536 * x == x * 65536) by (nonlinear_arith);
    if x >= 0 {
        assert((x * 65536) / 65536 == x) by (nonlinear_arith)
            requires
                x >= 0,
        ;
    } else {
        assert((-(x * 65536)) == (-x) * 65536) by (nonlinear_arith);
        assert(((-x) * 65536) / 65536 == -x) by (nonlinear_arith)
            requires
                x < 0,
        ;
    }
}

proof fn lemma_identity_compose_left(a: Transform)
    requires
        a.wf(),
    ensures
        spec_compose(spec_identity(), a) == a,
{
    lemma_identity_scale(a.rxx as int);
    lemma_identity_scale(a.rxy as int);
    lemma_identity_scale(a.rxz as int);
    lemma_identity_scale(a.ryx as int);
    lemma_identity_scale(a.ryy as int);
    lemma_identity_scale(a.ryz as int);
    lemma_identity_scale(a.rzx as int);
    lemma_identity_scale(a.rzy as int);
    lemma_identity_scale(a.rzz as int);
    lemma_identity_scale(a.tx as int);
    lemma_identity_scale(a.ty as int);
    lemma_identity_scale(a.tz as int);
}

proof fn lemma_identity_compose_right(a: Transform)
    requires
        a.wf(),
    ensures
        spec_compose(a, spec_identity()) == a,
{
    lemma_identity_scale(a.rxx as int);
    lemma_identity_scale(a.rxy as int);
    lemma_identity_scale(a.rxz as int);
    lemma_identity_scale(a.ryx as int);
    lemma_identity_scale(a.ryy as int);
    lemma_identity_scale(a.ryz as int);
    lemma_identity_scale(a.rzx as int);
    lemma_identity_scale(a.rzy as int);
    lemma_identity_scale(a.rzz as int);
}

/// One rotation entry of the composed rotation block.
fn rot_entry(a1: i64, a2: i64, a3: i64, b1: i64, b2: i64, b3: i64) -> (r: i64)
    requires
        -ROT_MAX <= a1 <= ROT_MAX,
        -ROT_MAX <= a2 <= ROT_MAX,
        -ROT_MAX <= a3 <= ROT_MAX,
        -ROT_MAX <= b1 <= ROT_MAX,
        -ROT_MAX <= b2 <= ROT_MAX,
        -ROT_MAX <= b3 <= ROT_MAX,
    ensures
        r == spec_rot_entry(a1 as int, a2 as int, a3 as int, b1 as int, b2 as int, b3 as int),
        -ROT_MAX <= r <= ROT_MAX,
{
    proof {
        lemma_mul_bound(a1 as int, b1 as int, ROT_MAX as int, ROT_MAX as int);
        lemma_mul_bound(a2 as int, b2 as int, ROT_MAX as int, ROT_MAX as int);
        lemma_mul_bound(a3 as int, b3 as int, ROT_MAX as int, ROT_MAX as int);
    }
    let s = a1 * b1 + a2 * b2 + a3 * b3;
    let q = scale_down(s);
    clamp(q, ROT_MAX)
}

/// One translation entry of the composed pose.
fn trs_entry(at: i64, a1: i64, a2: i64, a3: i64, b1: i64, b2: i64, b3: i64) -> (r: i64)
    requires
        -TRS_MAX <= at <= TRS_MAX,
        -ROT_MAX <= a1 <= ROT_MAX,
        -ROT_MAX <= a2 <= ROT_MAX,
        -ROT_MAX <= a3 <= ROT_MAX,
        -TRS_MAX <= b1 <= TRS_MAX,
        -TRS_MAX <= b2 <= TRS_MAX,
        -TRS_MAX <= b3 <= TRS_MAX,
    ensures
        r == spec_trs_entry(at as int, a1 as int, a2 as int, a3 as int, b1 as int, b2 as int, b3 as int),
        -TRS_MAX <= r <= TRS_MAX,
{
    proof {
        lemma_mul_bound(a1 as int, b1 as int, ROT_MAX as int, TRS_MAX as int);
        lemma_mul_bound(a2 as int, b2 as int, ROT_MAX as int, TRS_MAX as int);
        lemma_mul_bound(a3 as int, b3 as int, ROT_MAX as int, TRS_MAX as int);
    }
    let s = a1 * b1 + a2 * b2 + a3 * b3;
    proof {
        lemma_sdiv_bound(s as int, 3 * ROT_MAX * TRS_MAX);
    }
    let q = scale_down(s);
    clamp(at + q, TRS_MAX)
}

/// One translation entry of an inverse pose.
fn inv_trs_entry(c1: i64, c2: i64, c3: i64, t1: i64, t2: i64, t3: i64) -> (r: i64)
    requires
        -ROT_MAX <= c1 <= ROT_MAX,
        -ROT_MAX <= c2 <= ROT_MAX,
        -ROT_MAX <= c3 <= ROT_MAX,
        -TRS_MAX <= t1 <= TRS_MAX,
        -TRS_MAX <= t2 <= TRS_MAX,
        -TRS_MAX <= t3 <= TRS_MAX,
    ensures
        r == spec_inv_trs_entry(c1 as int, c2 as int, c3 as int, t1 as int, t2 as int, t3 as int),
        -TRS_MAX <= r <= TRS_MAX,
{
    proof {
        lemma_mul_bound(c1 as int, t1 as int, ROT_MAX as int, TRS_MAX as int);
        lemma_mul_bound(c2 as int, t2 as int, ROT_MAX as int, TRS_MAX as int);
        lemma_mul_bound(c3 as int, t3 as int, ROT_MAX as int, TRS_MAX as int);
    }
    let s = c1 * t1 + c2 * t2 + c3 * t3;
    proof {
        lemma_sdiv_bound(s as int, 3 * ROT_MAX * TRS_MAX);
    }
    let q = scale_down(s);
    clamp(-q, TRS_MAX)
}

} // verus!
