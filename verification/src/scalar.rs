//! Exact rational scalars, the numeric ground layer of the crate.
//!
//! A [`Scalar`] is a rational number held as a 64-bit numerator over a 64-bit
//! denominator.  Its mathematical value is the specification-level rational
//! [`Rat`]; two representations denote the same number exactly when [`rat_eq`]
//! holds.  Arithmetic is exact: each operation returns the textbook numerator
//! and denominator, unreduced, and its contract states them precisely.  The
//! only preconditions are the machine limits: the resulting parts must fit in
//! an `i64`, which [`rat_fits`] states.

use vstd::prelude::*;

verus! {

/// A rational number at the specification level: numerator `n` over
/// denominator `d`.  The representation is not reduced; `rat_eq` says when
/// two representations denote the same number.
pub ghost struct Rat {
    pub n: int,
    pub d: int,
}

/// A rational representation denotes a number exactly when its denominator is
/// nonzero.
pub open spec fn rat_wf(r: Rat) -> bool {
    r.d != 0
}

/// Equality of the denoted numbers: a/b equals c/d exactly when a*d == c*b
/// (for nonzero denominators).
pub open spec fn rat_eq(a: Rat, b: Rat) -> bool {
    a.n * b.d == b.n * a.d
}

/// The rational i/1.
pub open spec fn rat_int(i: int) -> Rat {
    Rat { n: i, d: 1 }
}

/// The numerator of the denoted number is nonzero; for well-formed rationals
/// this says the number itself is nonzero.
pub open spec fn rat_nonzero(r: Rat) -> bool {
    r.n != 0
}

pub open spec fn rat_add(a: Rat, b: Rat) -> Rat {
    Rat { n: a.n * b.d + b.n * a.d, d: a.d * b.d }
}

pub open spec fn rat_sub(a: Rat, b: Rat) -> Rat {
    Rat { n: a.n * b.d - b.n * a.d, d: a.d * b.d }
}

pub open spec fn rat_mul(a: Rat, b: Rat) -> Rat {
    Rat { n: a.n * b.n, d: a.d * b.d }
}

pub open spec fn rat_div(a: Rat, b: Rat) -> Rat {
    Rat { n: a.n * b.d, d: a.d * b.n }
}

pub open spec fn rat_neg(a: Rat) -> Rat {
    Rat { n: -a.n, d: a.d }
}

/// The magnitude fits strictly within the symmetric `i64` range.  `i64::MIN`
/// itself is excluded so that negation never overflows.
pub open spec fn in_i64(x: int) -> bool {
    -0x7fff_ffff_ffff_ffff <= x && x <= 0x7fff_ffff_ffff_ffff
}

/// Both parts of the rational fit in an `i64` (with `i64::MIN` excluded).
pub open spec fn rat_fits(r: Rat) -> bool {
    in_i64(r.n) && in_i64(r.d)
}

/// The product of two values from the symmetric `i64` range stays well within
/// the `i128` range.
pub proof fn lemma_i64_mul_in_i128(x: int, y: int)
    by (nonlinear_arith)
    requires
        in_i64(x),
        in_i64(y),
    ensures
        -(0x7fff_ffff_ffff_ffff * 0x7fff_ffff_ffff_ffff) <= x * y,
        x * y <= 0x7fff_ffff_ffff_ffff * 0x7fff_ffff_ffff_ffff,
{
}

/// A product of nonzero integers is nonzero.
pub proof fn lemma_mul_nonzero(x: int, y: int)
    by (nonlinear_arith)
    requires
        x != 0,
        y != 0,
    ensures
        x * y != 0,
{
}

/// An exact rational scalar: a 64-bit numerator over a 64-bit denominator.
///
/// Every vector and matrix entry in this crate is a `Scalar`.  Its view is
/// the spec-level rational [`Rat`]; contracts of the arithmetic methods give
/// the exact resulting representation.
#[derive(Clone, Copy, Debug)]
pub struct Scalar {
    pub num: i64,
    pub den: i64,
}

impl View for Scalar {
    type V = Rat;

    open spec fn view(&self) -> Rat {
        Rat { n: self.num as int, d: self.den as int }
    }
}

impl Scalar {
    /// The scalar denotes a number (nonzero denominator) and both parts stay
    /// strictly above `i64::MIN`, so negation and cross-multiplication are
    /// safe.
    pub open spec fn wf(self) -> bool {
        rat_wf(self@) && rat_fits(self@)
    }

    /// The rational num/den.
    pub fn new(num: i64, den: i64) -> (r: Scalar)
        requires
            den != 0,
            num > i64::MIN,
            den > i64::MIN,
        ensures
            r.wf(),
            r@ == (Rat { n: num as int, d: den as int }),
    {
        Scalar { num, den }
    }

    /// The whole number n, as the rational n/1.
    pub fn from_int(n: i64) -> (r: Scalar)
        requires
            n > i64::MIN,
        ensures
            r.wf(),
            r@ == rat_int(n as int),
    {
        Scalar { num: n, den: 1 }
    }

    pub fn zero() -> (r: Scalar)
        ensures
            r.wf(),
            r@ == rat_int(0),
    {
        Scalar { num: 0, den: 1 }
    }

    pub fn one() -> (r: Scalar)
        ensures
            r.wf(),
            r@ == rat_int(1),
    {
        Scalar { num: 1, den: 1 }
    }

    /// Exact sum; the unreduced parts must fit in an `i64`.
    pub fn add(self, other: Scalar) -> (r: Scalar)
        requires
            self.wf(),
            other.wf(),
            rat_fits(rat_add(self@, other@)),
        ensures
            r.wf(),
            r@ == rat_add(self@, other@),
    {
        proof {
            lemma_i64_mul_in_i128(self.num as int, other.den as int);
            lemma_i64_mul_in_i128(other.num as int, self.den as int);
            lemma_i64_mul_in_i128(self.den as int, other.den as int);
            lemma_mul_nonzero(self.den as int, other.den as int);
        }
        let n: i128 = (self.num as i128) * (other.den as i128) + (other.num as i128) * (self.den
            as i128);
        let d: i128 = (self.den as i128) * (other.den as i128);
        Scalar { num: n as i64, den: d as i64 }
    }

    /// Exact difference; the unreduced parts must fit in an `i64`.
    pub fn sub(self, other: Scalar) -> (r: Scalar)
        requires
            self.wf(),
            other.wf(),
            rat_fits(rat_sub(self@, other@)),
        ensures
            r.wf(),
            r@ == rat_sub(self@, other@),
    {
        proof {
            lemma_i64_mul_in_i128(self.num as int, other.den as int);
            lemma_i64_mul_in_i128(other.num as int, self.den as int);
            lemma_i64_mul_in_i128(self.den as int, other.den as int);
            lemma_mul_nonzero(self.den as int, other.den as int);
        }
        let n: i128 = (self.num as i128) * (other.den as i128) - (other.num as i128) * (self.den
            as i128);
        let d: i128 = (self.den as i128) * (other.den as i128);
        Scalar { num: n as i64, den: d as i64 }
    }

    /// Exact product; the unreduced parts must fit in an `i64`.
    pub fn mul(self, other: Scalar) -> (r: Scalar)
        requires
            self.wf(),
            other.wf(),
            rat_fits(rat_mul(self@, other@)),
        ensures
            r.wf(),
            r@ == rat_mul(self@, other@),
    {
        proof {
            lemma_i64_mul_in_i128(self.num as int, other.num as int);
            lemma_i64_mul_in_i128(self.den as int, other.den as int);
            lemma_mul_nonzero(self.den as int, other.den as int);
        }
        let n: i128 = (self.num as i128) * (other.num as i128);
        let d: i128 = (self.den as i128) * (other.den as i128);
        Scalar { num: n as i64, den: d as i64 }
    }

    /// Exact quotient; the divisor must be nonzero and the unreduced parts
    /// must fit in an `i64`.
    pub fn div(self, other: Scalar) -> (r: Scalar)
        requires
            self.wf(),
            other.wf(),
            rat_nonzero(other@),
            rat_fits(rat_div(self@, other@)),
        ensures
            r.wf(),
            r@ == rat_div(self@, other@),
    {
        proof {
            lemma_i64_mul_in_i128(self.num as int, other.den as int);
            lemma_i64_mul_in_i128(self.den as int, other.num as int);
            lemma_mul_nonzero(self.den as int, other.num as int);
        }
        let n: i128 = (self.num as i128) * (other.den as i128);
        let d: i128 = (self.den as i128) * (other.num as i128);
        Scalar { num: n as i64, den: d as i64 }
    }

    /// Exact negation; always representable for well-formed scalars.
    pub fn neg(self) -> (r: Scalar)
        requires
            self.wf(),
        ensures
            r.wf(),
            r@ == rat_neg(self@),
    {
        Scalar { num: -self.num, den: self.den }
    }

    /// Whether the two scalars denote the same rational number.
    pub fn eq_val(self, other: Scalar) -> (r: bool)
        requires
            self.wf(),
            other.wf(),
        ensures
            r == rat_eq(self@, other@),
    {
        proof {
            lemma_i64_mul_in_i128(self.num as int, other.den as int);
            lemma_i64_mul_in_i128(other.num as int, self.den as int);
        }
        (self.num as i128) * (other.den as i128) == (other.num as i128) * (self.den as i128)
    }
}

} // verus!
