//! 4x4 matrices of exact rational scalars, stored by columns.
//!
//! A [`Mat4`] holds four [`Vec4`] columns, so the entry at column `j`, row
//! `i` is `cj.i` (the layout matrix indexing conventions in graphics code
//! call column-major).  Points are transformed by left-multiplication:
//! `apply` computes `M * p`, and `mul` composes matrices so that
//! `(a.mul(b)).apply(p)` equals `a.apply(b.apply(p))`.  The views are the
//! spec-level [`M4`], and the contracts give the exact resulting rationals.

use vstd::prelude::*;

use crate::scalar::Rat;
use crate::scalar::Scalar;
use crate::scalar::rat_add;
use crate::scalar::rat_eq;
use crate::scalar::rat_fits;
use crate::scalar::rat_int;
use crate::scalar::rat_mul;
use crate::vector::V4;
use crate::vector::Vec4;
use crate::vector::v4_eq;
use crate::vector::v4_wf;

verus! {

/// Specification-level 4x4 rational matrix, a struct of four columns.
pub ghost struct M4 {
    pub c0: V4,
    pub c1: V4,
    pub c2: V4,
    pub c3: V4,
}

pub open spec fn m4_wf(m: M4) -> bool {
    v4_wf(m.c0) && v4_wf(m.c1) && v4_wf(m.c2) && v4_wf(m.c3)
}

/// Entrywise equality of the denoted numbers.
pub open spec fn m4_eq(a: M4, b: M4) -> bool {
    v4_eq(a.c0, b.c0) && v4_eq(a.c1, b.c1) && v4_eq(a.c2, b.c2) && v4_eq(a.c3, b.c3)
}

pub open spec fn row0(m: M4) -> V4 {
    V4 { x: m.c0.x, y: m.c1.x, z: m.c2.x, w: m.c3.x }
}

pub open spec fn row1(m: M4) -> V4 {
    V4 { x: m.c0.y, y: m.c1.y, z: m.c2.y, w: m.c3.y }
}

pub open spec fn row2(m: M4) -> V4 {
    V4 { x: m.c0.z, y: m.c1.z, z: m.c2.z, w: m.c3.z }
}

pub open spec fn row3(m: M4) -> V4 {
    V4 { x: m.c0.w, y: m.c1.w, z: m.c2.w, w: m.c3.w }
}

/// Dot product of two 4-vectors, summed left to right exactly as the
/// executable code does.
pub open spec fn dot4(a: V4, b: V4) -> Rat {
    rat_add(
        rat_add(rat_add(rat_mul(a.x, b.x), rat_mul(a.y, b.y)), rat_mul(a.z, b.z)),
        rat_mul(a.w, b.w),
    )
}

/// Machine limits for every intermediate of the dot product.
pub open spec fn dot4_fits(a: V4, b: V4) -> bool {
    let m0 = rat_mul(a.x, b.x);
    let m1 = rat_mul(a.y, b.y);
    let m2 = rat_mul(a.z, b.z);
    let m3 = rat_mul(a.w, b.w);
    let s1 = rat_add(m0, m1);
    let s2 = rat_add(s1, m2);
    rat_fits(m0) && rat_fits(m1) && rat_fits(m2) && rat_fits(m3) && rat_fits(s1) && rat_fits(s2)
        && rat_fits(rat_add(s2, m3))
}

/// The matrix-vector product `m * v`.
pub open spec fn mvmul(m: M4, v: V4) -> V4 {
    V4 { x: dot4(row0(m), v), y: dot4(row1(m), v), z: dot4(row2(m), v), w: dot4(row3(m), v) }
}

/// Machine limits for every intermediate of the matrix-vector product.
pub open spec fn mvmul_fits(m: M4, v: V4) -> bool {
    dot4_fits(row0(m), v) && dot4_fits(row1(m), v) && dot4_fits(row2(m), v) && dot4_fits(
        row3(m),
        v,
    )
}

/// The matrix product `a * b`, column by column.
pub open spec fn m4_mul(a: M4, b: M4) -> M4 {
    M4 { c0: mvmul(a, b.c0), c1: mvmul(a, b.c1), c2: mvmul(a, b.c2), c3: mvmul(a, b.c3) }
}

/// Machine limits for every intermediate of the matrix product.
pub open spec fn m4_mul_fits(a: M4, b: M4) -> bool {
    mvmul_fits(a, b.c0) && mvmul_fits(a, b.c1) && mvmul_fits(a, b.c2) && mvmul_fits(a, b.c3)
}

pub open spec fn v4_zero() -> V4 {
    V4 { x: rat_int(0), y: rat_int(0), z: rat_int(0), w: rat_int(0) }
}

/// The identity matrix at the specification level.
pub open spec fn m4_identity() -> M4 {
    M4 {
        c0: V4 { x: rat_int(1), y: rat_int(0), z: rat_int(0), w: rat_int(0) },
        c1: V4 { x: rat_int(0), y: rat_int(1), z: rat_int(0), w: rat_int(0) },
        c2: V4 { x: rat_int(0), y: rat_int(0), z: rat_int(1), w: rat_int(0) },
        c3: V4 { x: rat_int(0), y: rat_int(0), z: rat_int(0), w: rat_int(1) },
    }
}

/// The all-zero matrix at the specification level.
pub open spec fn m4_zero() -> M4 {
    M4 { c0: v4_zero(), c1: v4_zero(), c2: v4_zero(), c3: v4_zero() }
}

/// A 4x4 matrix of exact rational scalars, stored as four columns.
#[derive(Clone, Copy, Debug)]
pub struct Mat4 {
    pub c0: Vec4,
    pub c1: Vec4,
    pub c2: Vec4,
    pub c3: Vec4,
}

impl View for Mat4 {
    type V = M4;

    open spec fn view(&self) -> M4 {
        M4 { c0: self.c0@, c1: self.c1@, c2: self.c2@, c3: self.c3@ }
    }
}

impl Mat4 {
    pub open spec fn wf(self) -> bool {
        self.c0.wf() && self.c1.wf() && self.c2.wf() && self.c3.wf()
    }

    /// The matrix with the given columns.
    pub fn new(c0: Vec4, c1: Vec4, c2: Vec4, c3: Vec4) -> (r: Mat4)
        requires
            c0.wf(),
            c1.wf(),
            c2.wf(),
            c3.wf(),
        ensures
            r.wf(),
            r@ == (M4 { c0: c0@, c1: c1@, c2: c2@, c3: c3@ }),
    {
        Mat4 { c0, c1, c2, c3 }
    }

    /// The identity matrix.
    pub fn identity() -> (r: Mat4)
        ensures
            r.wf(),
            r@ == m4_identity(),
    {
        let o = Scalar::one();
        let z = Scalar::zero();
        Mat4 {
            c0: Vec4 { x: o, y: z, z: z, w: z },
            c1: Vec4 { x: z, y: o, z: z, w: z },
            c2: Vec4 { x: z, y: z, z: o, w: z },
            c3: Vec4 { x: z, y: z, z: z, w: o },
        }
    }

    /// The all-zero matrix.
    pub fn zeros() -> (r: Mat4)
        ensures
            r.wf(),
            r@ == m4_zero(),
    {
        let z = Scalar::zero();
        let col = Vec4 { x: z, y: z, z: z, w: z };
        Mat4 { c0: col, c1: col, c2: col, c3: col }
    }

    /// The matrix-vector product `self * v`.
    pub fn apply(&self, v: &Vec4) -> (r: Vec4)
        requires
            self.wf(),
            v.wf(),
            mvmul_fits(self@, v@),
        ensures
            r.wf(),
            r@ == mvmul(self@, v@),
    {
        let r0 = Vec4 { x: self.c0.x, y: self.c1.x, z: self.c2.x, w: self.c3.x };
        let r1 = Vec4 { x: self.c0.y, y: self.c1.y, z: self.c2.y, w: self.c3.y };
        let r2 = Vec4 { x: self.c0.z, y: self.c1.z, z: self.c2.z, w: self.c3.z };
        let r3 = Vec4 { x: self.c0.w, y: self.c1.w, z: self.c2.w, w: self.c3.w };
        Vec4 { x: dot4e(&r0, v), y: dot4e(&r1, v), z: dot4e(&r2, v), w: dot4e(&r3, v) }
    }

    /// The matrix product `self * other`.
    pub fn mul(&self, other: &Mat4) -> (r: Mat4)
        requires
            self.wf(),
            other.wf(),
            m4_mul_fits(self@, other@),
        ensures
            r.wf(),
            r@ == m4_mul(self@, other@),
    {
        Mat4 {
            c0: self.apply(&other.c0),
            c1: self.apply(&other.c1),
            c2: self.apply(&other.c2),
            c3: self.apply(&other.c3),
        }
    }

    /// Whether the two matrices are entrywise the same numbers.
    pub fn eq_val(&self, other: &Mat4) -> (r: bool)
        requires
            self.wf(),
            other.wf(),
        ensures
            r == m4_eq(self@, other@),
    {
        self.c0.eq_val(&other.c0) && self.c1.eq_val(&other.c1) && self.c2.eq_val(&other.c2)
            && self.c3.eq_val(&other.c3)
    }
}

/// Dot product of two 4-vectors of scalars.
fn dot4e(a: &Vec4, b: &Vec4) -> (r: Scalar)
    requires
        a.wf(),
        b.wf(),
        dot4_fits(a@, b@),
    ensures
        r.wf(),
        r@ == dot4(a@, b@),
{
    a.x.mul(b.x).add(a.y.mul(b.y)).add(a.z.mul(b.z)).add(a.w.mul(b.w))
}

} // verus!
