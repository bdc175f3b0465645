//! 3- and 4-component vectors of exact rational scalars.
//!
//! [`Vec3`] carries the geometric operations the matrix constructors read:
//! difference, dot product, cross product and extension to homogeneous
//! coordinates.  [`Vec4`] is a column of four scalars.  Their views are the
//! spec-level [`V3`] and [`V4`], and every operation's contract gives the
//! exact resulting rational components.

use vstd::prelude::*;

use crate::scalar::Rat;
use crate::scalar::Scalar;
use crate::scalar::rat_add;
use crate::scalar::rat_eq;
use crate::scalar::rat_fits;
use crate::scalar::rat_mul;
use crate::scalar::rat_sub;
use crate::scalar::rat_wf;

verus! {

/// Specification-level 3-component rational vector.
pub ghost struct V3 {
    pub x: Rat,
    pub y: Rat,
    pub z: Rat,
}

/// Specification-level 4-component rational vector.
pub ghost struct V4 {
    pub x: Rat,
    pub y: Rat,
    pub z: Rat,
    pub w: Rat,
}

pub open spec fn v3_wf(v: V3) -> bool {
    rat_wf(v.x) && rat_wf(v.y) && rat_wf(v.z)
}

pub open spec fn v4_wf(v: V4) -> bool {
    rat_wf(v.x) && rat_wf(v.y) && rat_wf(v.z) && rat_wf(v.w)
}

/// Componentwise equality of the denoted numbers.
pub open spec fn v4_eq(a: V4, b: V4) -> bool {
    rat_eq(a.x, b.x) && rat_eq(a.y, b.y) && rat_eq(a.z, b.z) && rat_eq(a.w, b.w)
}

/// Componentwise equality of the denoted numbers.
pub open spec fn v3_eq(a: V3, b: V3) -> bool {
    rat_eq(a.x, b.x) && rat_eq(a.y, b.y) && rat_eq(a.z, b.z)
}

pub open spec fn v3_sub(a: V3, b: V3) -> V3 {
    V3 { x: rat_sub(a.x, b.x), y: rat_sub(a.y, b.y), z: rat_sub(a.z, b.z) }
}

/// Dot product, summed left to right exactly as the executable code does.
pub open spec fn dot3(a: V3, b: V3) -> Rat {
    rat_add(rat_add(rat_mul(a.x, b.x), rat_mul(a.y, b.y)), rat_mul(a.z, b.z))
}

/// Cross product of two 3-vectors.
pub open spec fn cross3(a: V3, b: V3) -> V3 {
    V3 {
        x: rat_sub(rat_mul(a.y, b.z), rat_mul(a.z, b.y)),
        y: rat_sub(rat_mul(a.z, b.x), rat_mul(a.x, b.z)),
        z: rat_sub(rat_mul(a.x, b.y), rat_mul(a.y, b.x)),
    }
}

/// Machine limits for the componentwise difference.
pub open spec fn v3_sub_fits(a: V3, b: V3) -> bool {
    rat_fits(rat_sub(a.x, b.x)) && rat_fits(rat_sub(a.y, b.y)) && rat_fits(rat_sub(a.z, b.z))
}

/// Machine limits for every intermediate of the dot product.
pub open spec fn dot3_fits(a: V3, b: V3) -> bool {
    let m0 = rat_mul(a.x, b.x);
    let m1 = rat_mul(a.y, b.y);
    let m2 = rat_mul(a.z, b.z);
    let s1 = rat_add(m0, m1);
    rat_fits(m0) && rat_fits(m1) && rat_fits(m2) && rat_fits(s1) && rat_fits(rat_add(s1, m2))
}

/// Machine limits for every intermediate of the cross product.
pub open spec fn cross3_fits(a: V3, b: V3) -> bool {
    rat_fits(rat_mul(a.y, b.z)) && rat_fits(rat_mul(a.z, b.y)) && rat_fits(
        rat_sub(rat_mul(a.y, b.z), rat_mul(a.z, b.y)),
    ) && rat_fits(rat_mul(a.z, b.x)) && rat_fits(rat_mul(a.x, b.z)) && rat_fits(
        rat_sub(rat_mul(a.z, b.x), rat_mul(a.x, b.z)),
    ) && rat_fits(rat_mul(a.x, b.y)) && rat_fits(rat_mul(a.y, b.x)) && rat_fits(
        rat_sub(rat_mul(a.x, b.y), rat_mul(a.y, b.x)),
    )
}

/// A 3-component vector of exact rational scalars.
#[derive(Clone, Copy, Debug)]
pub struct Vec3 {
    pub x: Scalar,
    pub y: Scalar,
    pub z: Scalar,
}

impl View for Vec3 {
    type V = V3;

    open spec fn view(&self) -> V3 {
        V3 { x: self.x@, y: self.y@, z: self.z@ }
    }
}

/// A 4-component vector of exact rational scalars.
#[derive(Clone, Copy, Debug)]
pub struct Vec4 {
    pub x: Scalar,
    pub y: Scalar,
    pub z: Scalar,
    pub w: Scalar,
}

impl View for Vec4 {
    type V = V4;

    open spec fn view(&self) -> V4 {
        V4 { x: self.x@, y: self.y@, z: self.z@, w: self.w@ }
    }
}

impl Vec3 {
    pub open spec fn wf(self) -> bool {
        self.x.wf() && self.y.wf() && self.z.wf()
    }

    pub fn new(x: Scalar, y: Scalar, z: Scalar) -> (r: Vec3)
        requires
            x.wf(),
            y.wf(),
            z.wf(),
        ensures
            r.wf(),
            r@ == (V3 { x: x@, y: y@, z: z@ }),
    {
        Vec3 { x, y, z }
    }

    /// Componentwise difference `self - other`.
    pub fn sub(&self, other: &Vec3) -> (r: Vec3)
        requires
            self.wf(),
            other.wf(),
            v3_sub_fits(self@, other@),
        ensures
            r.wf(),
            r@ == v3_sub(self@, other@),
    {
        Vec3 { x: self.x.sub(other.x), y: self.y.sub(other.y), z: self.z.sub(other.z) }
    }

    /// Dot product of two 3-vectors.
    pub fn dot(&self, other: &Vec3) -> (r: Scalar)
        requires
            self.wf(),
            other.wf(),
            dot3_fits(self@, other@),
        ensures
            r.wf(),
            r@ == dot3(self@, other@),
    {
        self.x.mul(other.x).add(self.y.mul(other.y)).add(self.z.mul(other.z))
    }

    /// Cross product of two 3-vectors.
    pub fn cross(&self, other: &Vec3) -> (r: Vec3)
        requires
            self.wf(),
            other.wf(),
            cross3_fits(self@, other@),
        ensures
            r.wf(),
            r@ == cross3(self@, other@),
    {
        Vec3 {
            x: self.y.mul(other.z).sub(self.z.mul(other.y)),
            y: self.z.mul(other.x).sub(self.x.mul(other.z)),
            z: self.x.mul(other.y).sub(self.y.mul(other.x)),
        }
    }

    /// Extend to homogeneous coordinates with the given fourth component.
    pub fn extend(&self, w: Scalar) -> (r: Vec4)
        requires
            self.wf(),
            w.wf(),
        ensures
            r.wf(),
            r@ == (V4 { x: self@.x, y: self@.y, z: self@.z, w: w@ }),
    {
        Vec4 { x: self.x, y: self.y, z: self.z, w }
    }

    /// Whether the two vectors are componentwise the same numbers.
    pub fn eq_val(&self, other: &Vec3) -> (r: bool)
        requires
            self.wf(),
            other.wf(),
        ensures
            r == v3_eq(self@, other@),
    {
        self.x.eq_val(other.x) && self.y.eq_val(other.y) && self.z.eq_val(other.z)
    }
}

impl Vec4 {
    pub open spec fn wf(self) -> bool {
        self.x.wf() && self.y.wf() && self.z.wf() && self.w.wf()
    }

    pub fn new(x: Scalar, y: Scalar, z: Scalar, w: Scalar) -> (r: Vec4)
        requires
            x.wf(),
            y.wf(),
            z.wf(),
            w.wf(),
        ensures
            r.wf(),
            r@ == (V4 { x: x@, y: y@, z: z@, w: w@ }),
    {
        Vec4 { x, y, z, w }
    }

    /// Drop the homogeneous component.
    pub fn truncate(&self) -> (r: Vec3)
        requires
            self.wf(),
        ensures
            r.wf(),
            r@ == (V3 { x: self@.x, y: self@.y, z: self@.z }),
    {
        Vec3 { x: self.x, y: self.y, z: self.z }
    }

    /// Whether the two vectors are componentwise the same numbers.
    pub fn eq_val(&self, other: &Vec4) -> (r: bool)
        requires
            self.wf(),
            other.wf(),
        ensures
            r == v4_eq(self@, other@),
    {
        self.x.eq_val(other.x) && self.y.eq_val(other.y) && self.z.eq_val(other.z)
            && self.w.eq_val(other.w)
    }
}

} // verus!
