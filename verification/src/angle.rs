//! Angles, carried as the sine and cosine of the half angle.
//!
//! The rotation constructor derives its quaternion from the half-angle sine
//! and cosine, and the perspective constructor reads the half-angle tangent;
//! nothing else of an angle is ever used.  An [`Angle`] therefore holds
//! exactly those two values, as exact rationals.  An angle is a proper one
//! when the pair lies on the unit circle (`ang_unit`); the constructors
//! accept any pair, and the rotation laws assume a unit pair.

use vstd::prelude::*;

use crate::scalar::Rat;
use crate::scalar::Scalar;
use crate::scalar::rat_add;
use crate::scalar::rat_eq;
use crate::scalar::rat_int;
use crate::scalar::rat_mul;
use crate::scalar::rat_neg;
use crate::scalar::rat_wf;

verus! {

/// Specification-level angle: sine `s` and cosine `c` of the half angle.
pub ghost struct AngV {
    pub s: Rat,
    pub c: Rat,
}

pub open spec fn ang_wf(a: AngV) -> bool {
    rat_wf(a.s) && rat_wf(a.c)
}

/// The half-angle pair lies on the unit circle: s*s + c*c == 1.
pub open spec fn ang_unit(a: AngV) -> bool {
    rat_eq(rat_add(rat_mul(a.s, a.s), rat_mul(a.c, a.c)), rat_int(1))
}

/// The opposite angle: the half-angle sine flips sign, the cosine stays.
pub open spec fn ang_neg(a: AngV) -> AngV {
    AngV { s: rat_neg(a.s), c: a.c }
}

/// An angle, represented by the sine and cosine of half the angle.
///
/// The representation is exact, so only angles whose half-angle sine and
/// cosine are rational can be written down; that includes 0, the half turn
/// (sine 1, cosine 0 of the quarter turn) and every angle of a Pythagorean
/// pair such as 3/5 and 4/5.  Callers that need other angles pick a rational
/// pair close to the exact one.
#[derive(Clone, Copy, Debug)]
pub struct Angle {
    pub sin_half: Scalar,
    pub cos_half: Scalar,
}

impl View for Angle {
    type V = AngV;

    open spec fn view(&self) -> AngV {
        AngV { s: self.sin_half@, c: self.cos_half@ }
    }
}

impl Angle {
    pub open spec fn wf(self) -> bool {
        self.sin_half.wf() && self.cos_half.wf()
    }

    /// The angle whose half angle has the given sine and cosine.
    pub fn new(sin_half: Scalar, cos_half: Scalar) -> (r: Angle)
        requires
            sin_half.wf(),
            cos_half.wf(),
        ensures
            r.wf(),
            r@ == (AngV { s: sin_half@, c: cos_half@ }),
    {
        Angle { sin_half, cos_half }
    }

    /// The zero angle: half-angle sine 0, cosine 1.
    pub fn zero() -> (r: Angle)
        ensures
            r.wf(),
            r@ == (AngV { s: rat_int(0), c: rat_int(1) }),
    {
        Angle { sin_half: Scalar::zero(), cos_half: Scalar::one() }
    }

    /// The half turn (180 degrees): half-angle sine 1, cosine 0.
    pub fn half_turn() -> (r: Angle)
        ensures
            r.wf(),
            r@ == (AngV { s: rat_int(1), c: rat_int(0) }),
    {
        Angle { sin_half: Scalar::one(), cos_half: Scalar::zero() }
    }

    /// The opposite angle (rotation the other way round).
    pub fn neg(self) -> (r: Angle)
        requires
            self.wf(),
        ensures
            r.wf(),
            r@ == ang_neg(self@),
    {
        Angle { sin_half: self.sin_half.neg(), cos_half: self.cos_half }
    }
}

} // verus!
