//! The algebraic laws of the constructors, proved over the rational model.
//!
//! Each public proof function states one law about the matrices of
//! `transform`: what translation, scaling and shearing do to a homogeneous
//! point, that the zero angle rotates nothing, and the order in which the
//! builder composes a chain.

use vstd::prelude::*;

use crate::angle::AngV;
use crate::angle::ang_wf;
use crate::matrix::M4;
use crate::matrix::dot4;
use crate::matrix::m4_eq;
use crate::matrix::m4_identity;
use crate::matrix::m4_mul;
use crate::matrix::m4_wf;
use crate::matrix::mvmul;
use crate::matrix::row0;
use crate::matrix::row1;
use crate::matrix::row2;
use crate::matrix::row3;
use crate::scalar::Rat;
use crate::scalar::lemma_mul_nonzero;
use crate::scalar::rat_add;
use crate::scalar::rat_eq;
use crate::scalar::rat_int;
use crate::scalar::rat_mul;
use crate::scalar::rat_sub;
use crate::scalar::rat_wf;
use crate::transform::rotate_mat;
use crate::transform::scale_mat;
use crate::transform::shear_x_mat;
use crate::transform::shear_y_mat;
use crate::transform::shear_z_mat;
use crate::transform::translate_mat;
use crate::vector::V3;
use crate::vector::V4;
use crate::vector::v3_wf;
use crate::vector::v4_eq;
use crate::vector::v4_wf;

verus! {

// ----- small algebra kit over the rational model -----

/// Swap the last two factors: (x*y)*z == (x*z)*y.
proof fn lemma_mul_swap(x: int, y: int, z: int)
    ensures
        (x * y) * z == (x * z) * y,
{
    vstd::arithmetic::mul::lemma_mul_is_associative(x, y, z);
    vstd::arithmetic::mul::lemma_mul_is_commutative(y, z);
    vstd::arithmetic::mul::lemma_mul_is_associative(x, z, y);
}

/// Exchange the middle factors of a product of two pairs.
proof fn lemma_mul_rearrange(p: int, q: int, r: int, s: int)
    ensures
        (p * q) * (r * s) == (p * r) * (q * s),
{
    vstd::arithmetic::mul::lemma_mul_is_associative(p, q, r * s);
    vstd::arithmetic::mul::lemma_mul_is_associative(q, r, s);
    vstd::arithmetic::mul::lemma_mul_is_commutative(q, r);
    vstd::arithmetic::mul::lemma_mul_is_associative(r, q, s);
    vstd::arithmetic::mul::lemma_mul_is_associative(p, r, q * s);
}

/// Exchange the outer factors of a product of two pairs.
proof fn lemma_mul_rearrange2(p: int, q: int, r: int, s: int)
    ensures
        (p * q) * (r * s) == (p * s) * (q * r),
{
    vstd::arithmetic::mul::lemma_mul_is_associative(p, q, r * s);
    vstd::arithmetic::mul::lemma_mul_is_associative(q, r, s);
    vstd::arithmetic::mul::lemma_mul_is_commutative(q * r, s);
    vstd::arithmetic::mul::lemma_mul_is_associative(p, s, q * r);
}

proof fn lemma_eq_trans_int(an: int, ad: int, bn: int, bd: int, cn: int, cd: int)
    requires
        an * bd == bn * ad,
        bn * cd == cn * bd,
        bd != 0,
    ensures
        an * cd == cn * ad,
{
    lemma_mul_swap(an, cd, bd);
    assert((an * bd) * cd == (bn * ad) * cd);
    lemma_mul_swap(bn, ad, cd);
    assert((bn * cd) * ad == (cn * bd) * ad);
    lemma_mul_swap(cn, bd, ad);
    assert((an * cd) * bd == (cn * ad) * bd);
    vstd::arithmetic::mul::lemma_mul_is_commutative(an * cd, bd);
    vstd::arithmetic::mul::lemma_mul_is_commutative(cn * ad, bd);
    vstd::arithmetic::mul::lemma_mul_equality_converse(bd, an * cd, cn * ad);
}

proof fn lemma_add_cong_int(
    an: int,
    ad: int,
    bn: int,
    bd: int,
    a2n: int,
    a2d: int,
    b2n: int,
    b2d: int,
)
    requires
        an * a2d == a2n * ad,
        bn * b2d == b2n * bd,
    ensures
        (an * bd + bn * ad) * (a2d * b2d) == (a2n * b2d + b2n * a2d) * (ad * bd),
{
    vstd::arithmetic::mul::lemma_mul_is_distributive_add_other_way(
        a2d * b2d,
        an * bd,
        bn * ad,
    );
    lemma_mul_rearrange(an, bd, a2d, b2d);
    assert((an * a2d) * (bd * b2d) == (a2n * ad) * (bd * b2d));
    lemma_mul_rearrange2(a2n, ad, bd, b2d);
    vstd::arithmetic::mul::lemma_mul_is_commutative(ad, bd);
    lemma_mul_rearrange2(bn, ad, a2d, b2d);
    assert((bn * b2d) * (ad * a2d) == (b2n * bd) * (ad * a2d));
    lemma_mul_rearrange2(b2n, bd, ad, a2d);
    vstd::arithmetic::mul::lemma_mul_is_distributive_add_other_way(
        ad * bd,
        a2n * b2d,
        b2n * a2d,
    );
}

proof fn lemma_mul_cong_int(
    an: int,
    ad: int,
    bn: int,
    bd: int,
    a2n: int,
    a2d: int,
    b2n: int,
    b2d: int,
)
    requires
        an * a2d == a2n * ad,
        bn * b2d == b2n * bd,
    ensures
        (an * bn) * (a2d * b2d) == (a2n * b2n) * (ad * bd),
{
    lemma_mul_rearrange(an, bn, a2d, b2d);
    assert((an * a2d) * (bn * b2d) == (a2n * ad) * (b2n * bd));
    lemma_mul_rearrange(a2n, ad, b2n, bd);
    vstd::arithmetic::mul::lemma_mul_is_commutative(ad, b2n);
    lemma_mul_rearrange(a2n, b2n, ad, bd);
}

proof fn lemma_add_comm_int(an: int, ad: int, bn: int, bd: int)
    ensures
        (an * bd + bn * ad) * (bd * ad) == (bn * ad + an * bd) * (ad * bd),
{
    vstd::arithmetic::mul::lemma_mul_is_commutative(bd, ad);
}

proof fn lemma_add_zero_int(an: int, ad: int, zd: int)
    ensures
        (an * zd) * ad == an * (ad * zd),
        (an * zd) * ad == an * (zd * ad),
{
    vstd::arithmetic::mul::lemma_mul_is_associative(an, zd, ad);
    vstd::arithmetic::mul::lemma_mul_is_commutative(zd, ad);
}

proof fn lemma_rat_eq_trans(a: Rat, b: Rat, c: Rat)
    requires
        rat_wf(b),
        rat_eq(a, b),
        rat_eq(b, c),
    ensures
        rat_eq(a, c),
{
    lemma_eq_trans_int(a.n, a.d, b.n, b.d, c.n, c.d);
}

proof fn lemma_add_cong(a: Rat, b: Rat, a2: Rat, b2: Rat)
    requires
        rat_eq(a, a2),
        rat_eq(b, b2),
    ensures
        rat_eq(rat_add(a, b), rat_add(a2, b2)),
{
    lemma_add_cong_int(a.n, a.d, b.n, b.d, a2.n, a2.d, b2.n, b2.d);
}

proof fn lemma_mul_cong(a: Rat, b: Rat, a2: Rat, b2: Rat)
    requires
        rat_eq(a, a2),
        rat_eq(b, b2),
    ensures
        rat_eq(rat_mul(a, b), rat_mul(a2, b2)),
{
    lemma_mul_cong_int(a.n, a.d, b.n, b.d, a2.n, a2.d, b2.n, b2.d);
}

proof fn lemma_add_comm(a: Rat, b: Rat)
    ensures
        rat_eq(rat_add(a, b), rat_add(b, a)),
{
    lemma_add_comm_int(a.n, a.d, b.n, b.d);
}

/// Adding a rational whose numerator is zero changes nothing.
proof fn lemma_add_zero_right(a: Rat, z: Rat)
    requires
        z.n == 0,
    ensures
        rat_eq(rat_add(a, z), a),
{
    lemma_mul_zero_left(z.n, a.d);
    lemma_add_zero_int(a.n, a.d, z.d);
}

proof fn lemma_add_zero_left(z: Rat, a: Rat)
    requires
        z.n == 0,
    ensures
        rat_eq(rat_add(z, a), a),
{
    lemma_mul_zero_left(z.n, a.d);
    lemma_add_zero_int(a.n, a.d, z.d);
}

proof fn lemma_mul_zero_left(x: int, y: int)
    by (nonlinear_arith)
    requires
        x == 0,
    ensures
        x * y == 0,
{
}

/// The denominator of a dot product of well-formed vectors is nonzero.
proof fn lemma_dot4_wf(u: V4, v: V4)
    requires
        v4_wf(u),
        v4_wf(v),
    ensures
        rat_wf(dot4(u, v)),
{
    let m0 = rat_mul(u.x, v.x);
    let m1 = rat_mul(u.y, v.y);
    let m2 = rat_mul(u.z, v.z);
    let m3 = rat_mul(u.w, v.w);
    let s1 = rat_add(m0, m1);
    let s2 = rat_add(s1, m2);
    lemma_mul_nonzero(u.x.d, v.x.d);
    lemma_mul_nonzero(u.y.d, v.y.d);
    lemma_mul_nonzero(u.z.d, v.z.d);
    lemma_mul_nonzero(u.w.d, v.w.d);
    lemma_mul_nonzero(m0.d, m1.d);
    lemma_mul_nonzero(s1.d, m2.d);
    lemma_mul_nonzero(s2.d, m3.d);
}

/// Dot products respect value equality in the right argument.
proof fn lemma_dot4_cong_right(u: V4, v: V4, v2: V4)
    requires
        v4_eq(v, v2),
    ensures
        rat_eq(dot4(u, v), dot4(u, v2)),
{
    lemma_mul_cong(u.x, v.x, u.x, v2.x);
    lemma_mul_cong(u.y, v.y, u.y, v2.y);
    lemma_mul_cong(u.z, v.z, u.z, v2.z);
    lemma_mul_cong(u.w, v.w, u.w, v2.w);
    lemma_add_cong(rat_mul(u.x, v.x), rat_mul(u.y, v.y), rat_mul(u.x, v2.x), rat_mul(u.y, v2.y));
    lemma_add_cong(
        rat_add(rat_mul(u.x, v.x), rat_mul(u.y, v.y)),
        rat_mul(u.z, v.z),
        rat_add(rat_mul(u.x, v2.x), rat_mul(u.y, v2.y)),
        rat_mul(u.z, v2.z),
    );
    lemma_add_cong(
        rat_add(rat_add(rat_mul(u.x, v.x), rat_mul(u.y, v.y)), rat_mul(u.z, v.z)),
        rat_mul(u.w, v.w),
        rat_add(rat_add(rat_mul(u.x, v2.x), rat_mul(u.y, v2.y)), rat_mul(u.z, v2.z)),
        rat_mul(u.w, v2.w),
    );
}

/// Dot product with the first identity column picks the first component.
proof fn lemma_dot4_e0(u: V4)
    requires
        v4_wf(u),
    ensures
        rat_eq(dot4(u, m4_identity().c0), u.x),
{
    let m1 = rat_mul(u.y, rat_int(0));
    let m2 = rat_mul(u.z, rat_int(0));
    let m3 = rat_mul(u.w, rat_int(0));
    let s1 = rat_add(u.x, m1);
    let s2 = rat_add(s1, m2);
    lemma_add_zero_right(u.x, m1);
    lemma_add_zero_right(s1, m2);
    lemma_add_zero_right(s2, m3);
    lemma_mul_nonzero(u.x.d, m1.d);
    lemma_mul_nonzero(s1.d, m2.d);
    lemma_rat_eq_trans(s2, s1, u.x);
    lemma_rat_eq_trans(rat_add(s2, m3), s2, u.x);
}

/// Dot product with the second identity column picks the second component.
proof fn lemma_dot4_e1(u: V4)
    requires
        v4_wf(u),
    ensures
        rat_eq(dot4(u, m4_identity().c1), u.y),
{
    let m0 = rat_mul(u.x, rat_int(0));
    let m2 = rat_mul(u.z, rat_int(0));
    let m3 = rat_mul(u.w, rat_int(0));
    let s1 = rat_add(m0, u.y);
    let s2 = rat_add(s1, m2);
    lemma_add_zero_left(m0, u.y);
    lemma_add_zero_right(s1, m2);
    lemma_add_zero_right(s2, m3);
    lemma_mul_nonzero(m0.d, u.y.d);
    lemma_mul_nonzero(s1.d, m2.d);
    lemma_rat_eq_trans(s2, s1, u.y);
    lemma_rat_eq_trans(rat_add(s2, m3), s2, u.y);
}

/// Dot product with the third identity column picks the third component.
proof fn lemma_dot4_e2(u: V4)
    requires
        v4_wf(u),
    ensures
        rat_eq(dot4(u, m4_identity().c2), u.z),
{
    let m0 = rat_mul(u.x, rat_int(0));
    let m1 = rat_mul(u.y, rat_int(0));
    let m3 = rat_mul(u.w, rat_int(0));
    let s1 = rat_add(m0, m1);
    let s2 = rat_add(s1, u.z);
    lemma_mul_zero_left(m0.n, m1.d);
    lemma_mul_zero_left(m1.n, m0.d);
    lemma_mul_nonzero(m0.d, m1.d);
    lemma_add_zero_left(s1, u.z);
    lemma_add_zero_right(s2, m3);
    lemma_mul_nonzero(s1.d, u.z.d);
    lemma_rat_eq_trans(rat_add(s2, m3), s2, u.z);
}

/// Dot product with the fourth identity column picks the fourth component.
proof fn lemma_dot4_e3(u: V4)
    requires
        v4_wf(u),
    ensures
        rat_eq(dot4(u, m4_identity().c3), u.w),
{
    let m0 = rat_mul(u.x, rat_int(0));
    let m1 = rat_mul(u.y, rat_int(0));
    let m2 = rat_mul(u.z, rat_int(0));
    let s1 = rat_add(m0, m1);
    let s2 = rat_add(s1, m2);
    lemma_mul_zero_left(m0.n, m1.d);
    lemma_mul_zero_left(m1.n, m0.d);
    lemma_mul_zero_left(s1.n, m2.d);
    lemma_mul_zero_left(m2.n, s1.d);
    lemma_mul_nonzero(m0.d, m1.d);
    lemma_mul_nonzero(s1.d, m2.d);
    lemma_add_zero_left(s2, u.w);
}

/// Multiplying by the identity on the right leaves a matrix unchanged in
/// value.
proof fn lemma_mul_identity_right(m: M4)
    requires
        m4_wf(m),
    ensures
        m4_eq(m4_mul(m, m4_identity()), m),
{
    lemma_dot4_e0(row0(m));
    lemma_dot4_e0(row1(m));
    lemma_dot4_e0(row2(m));
    lemma_dot4_e0(row3(m));
    lemma_dot4_e1(row0(m));
    lemma_dot4_e1(row1(m));
    lemma_dot4_e1(row2(m));
    lemma_dot4_e1(row3(m));
    lemma_dot4_e2(row0(m));
    lemma_dot4_e2(row1(m));
    lemma_dot4_e2(row2(m));
    lemma_dot4_e2(row3(m));
    lemma_dot4_e3(row0(m));
    lemma_dot4_e3(row1(m));
    lemma_dot4_e3(row2(m));
    lemma_dot4_e3(row3(m));
}

proof fn lemma_mvmul_wf(m: M4, v: V4)
    requires
        m4_wf(m),
        v4_wf(v),
    ensures
        v4_wf(mvmul(m, v)),
{
    lemma_dot4_wf(row0(m), v);
    lemma_dot4_wf(row1(m), v);
    lemma_dot4_wf(row2(m), v);
    lemma_dot4_wf(row3(m), v);
}

/// Matrix products respect value equality in the right factor.
proof fn lemma_m4_mul_cong_right(m: M4, b: M4, b2: M4)
    requires
        m4_eq(b, b2),
    ensures
        m4_eq(m4_mul(m, b), m4_mul(m, b2)),
{
    lemma_dot4_cong_right(row0(m), b.c0, b2.c0);
    lemma_dot4_cong_right(row1(m), b.c0, b2.c0);
    lemma_dot4_cong_right(row2(m), b.c0, b2.c0);
    lemma_dot4_cong_right(row3(m), b.c0, b2.c0);
    lemma_dot4_cong_right(row0(m), b.c1, b2.c1);
    lemma_dot4_cong_right(row1(m), b.c1, b2.c1);
    lemma_dot4_cong_right(row2(m), b.c1, b2.c1);
    lemma_dot4_cong_right(row3(m), b.c1, b2.c1);
    lemma_dot4_cong_right(row0(m), b.c2, b2.c2);
    lemma_dot4_cong_right(row1(m), b.c2, b2.c2);
    lemma_dot4_cong_right(row2(m), b.c2, b2.c2);
    lemma_dot4_cong_right(row3(m), b.c2, b2.c2);
    lemma_dot4_cong_right(row0(m), b.c3, b2.c3);
    lemma_dot4_cong_right(row1(m), b.c3, b2.c3);
    lemma_dot4_cong_right(row2(m), b.c3, b2.c3);
    lemma_dot4_cong_right(row3(m), b.c3, b2.c3);
}

// ----- the laws -----

/// Translation law: for a homogeneous point with w equal to 1, multiplying
/// by the translation matrix adds the offset to each spatial coordinate and
/// keeps w.
pub proof fn lemma_translate_point(o: V3, p: V4)
    requires
        v3_wf(o),
        v4_wf(p),
        rat_eq(p.w, rat_int(1)),
    ensures
        v4_eq(
            mvmul(translate_mat(o), p),
            (V4 {
                x: rat_add(p.x, o.x),
                y: rat_add(p.y, o.y),
                z: rat_add(p.z, o.z),
                w: p.w,
            }),
        ),
{
    let zx = rat_mul(rat_int(0), p.x);
    let zy = rat_mul(rat_int(0), p.y);
    let zz = rat_mul(rat_int(0), p.z);

    // x component: p.x + 0 + 0 + o.x * p.w
    let a1 = rat_add(p.x, zy);
    let a2 = rat_add(a1, zz);
    lemma_add_zero_right(p.x, zy);
    lemma_add_zero_right(a1, zz);
    lemma_mul_nonzero(p.x.d, zy.d);
    lemma_rat_eq_trans(a2, a1, p.x);
    lemma_mul_cong(o.x, p.w, o.x, rat_int(1));
    lemma_rat_eq_trans(rat_mul(o.x, p.w), rat_mul(o.x, rat_int(1)), o.x);
    lemma_add_cong(a2, rat_mul(o.x, p.w), p.x, o.x);

    // y component: 0 + p.y + 0 + o.y * p.w
    let b1 = rat_add(zx, p.y);
    let b2 = rat_add(b1, zz);
    lemma_add_zero_left(zx, p.y);
    lemma_add_zero_right(b1, zz);
    lemma_mul_nonzero(zx.d, p.y.d);
    lemma_rat_eq_trans(b2, b1, p.y);
    lemma_mul_cong(o.y, p.w, o.y, rat_int(1));
    lemma_rat_eq_trans(rat_mul(o.y, p.w), rat_mul(o.y, rat_int(1)), o.y);
    lemma_add_cong(b2, rat_mul(o.y, p.w), p.y, o.y);

    // z component: 0 + 0 + p.z + o.z * p.w
    let c1 = rat_add(zx, zy);
    let c2 = rat_add(c1, p.z);
    lemma_mul_zero_left(zx.n, zy.d);
    lemma_mul_zero_left(zy.n, zx.d);
    lemma_mul_nonzero(zx.d, zy.d);
    lemma_add_zero_left(c1, p.z);
    lemma_mul_cong(o.z, p.w, o.z, rat_int(1));
    lemma_rat_eq_trans(rat_mul(o.z, p.w), rat_mul(o.z, rat_int(1)), o.z);
    lemma_add_cong(c2, rat_mul(o.z, p.w), p.z, o.z);

    // w component: 0 + 0 + 0 + 1 * p.w
    let d2 = rat_add(c1, zz);
    lemma_mul_zero_left(c1.n, zz.d);
    lemma_mul_zero_left(zz.n, c1.d);
    lemma_mul_nonzero(c1.d, zz.d);
    lemma_add_zero_left(d2, p.w);
}

/// Scale law: multiplying by the scale matrix multiplies each spatial
/// coordinate independently by the matching factor and keeps w.
pub proof fn lemma_scale_point(f: V3, p: V4)
    requires
        v3_wf(f),
        v4_wf(p),
    ensures
        v4_eq(
            mvmul(scale_mat(f), p),
            (V4 {
                x: rat_mul(f.x, p.x),
                y: rat_mul(f.y, p.y),
                z: rat_mul(f.z, p.z),
                w: p.w,
            }),
        ),
{
    let zx = rat_mul(rat_int(0), p.x);
    let zy = rat_mul(rat_int(0), p.y);
    let zz = rat_mul(rat_int(0), p.z);
    let zw = rat_mul(rat_int(0), p.w);

    // x component: f.x * p.x + 0 + 0 + 0
    let mx = rat_mul(f.x, p.x);
    let a1 = rat_add(mx, zy);
    let a2 = rat_add(a1, zz);
    lemma_add_zero_right(mx, zy);
    lemma_add_zero_right(a1, zz);
    lemma_add_zero_right(a2, zw);
    lemma_mul_nonzero(f.x.d, p.x.d);
    lemma_mul_nonzero(mx.d, zy.d);
    lemma_mul_nonzero(a1.d, zz.d);
    lemma_rat_eq_trans(a2, a1, mx);
    lemma_rat_eq_trans(rat_add(a2, zw), a2, mx);

    // y component: 0 + f.y * p.y + 0 + 0
    let my = rat_mul(f.y, p.y);
    let b1 = rat_add(zx, my);
    let b2 = rat_add(b1, zz);
    lemma_add_zero_left(zx, my);
    lemma_add_zero_right(b1, zz);
    lemma_add_zero_right(b2, zw);
    lemma_mul_nonzero(f.y.d, p.y.d);
    lemma_mul_nonzero(zx.d, my.d);
    lemma_mul_nonzero(b1.d, zz.d);
    lemma_rat_eq_trans(b2, b1, my);
    lemma_rat_eq_trans(rat_add(b2, zw), b2, my);

    // z component: 0 + 0 + f.z * p.z + 0
    let mz = rat_mul(f.z, p.z);
    let c1 = rat_add(zx, zy);
    let c2 = rat_add(c1, mz);
    lemma_mul_zero_left(zx.n, zy.d);
    lemma_mul_zero_left(zy.n, zx.d);
    lemma_mul_nonzero(zx.d, zy.d);
    lemma_add_zero_left(c1, mz);
    lemma_add_zero_right(c2, zw);
    lemma_mul_nonzero(f.z.d, p.z.d);
    lemma_mul_nonzero(c1.d, mz.d);
    lemma_rat_eq_trans(rat_add(c2, zw), c2, mz);

    // w component: 0 + 0 + 0 + 1 * p.w
    let d2 = rat_add(c1, zz);
    lemma_mul_zero_left(c1.n, zz.d);
    lemma_mul_zero_left(zz.n, c1.d);
    lemma_mul_nonzero(c1.d, zz.d);
    lemma_add_zero_left(d2, p.w);
}

/// Shear law for the x axis: the x coordinate is unchanged, y gains a1 * x,
/// z gains a2 * x, and w is kept.
pub proof fn lemma_shear_x_point(a1: Rat, a2: Rat, p: V4)
    requires
        rat_wf(a1),
        rat_wf(a2),
        v4_wf(p),
    ensures
        v4_eq(
            mvmul(shear_x_mat(a1, a2), p),
            (V4 {
                x: p.x,
                y: rat_add(p.y, rat_mul(a1, p.x)),
                z: rat_add(p.z, rat_mul(a2, p.x)),
                w: p.w,
            }),
        ),
{
    let zx = rat_mul(rat_int(0), p.x);
    let zy = rat_mul(rat_int(0), p.y);
    let zz = rat_mul(rat_int(0), p.z);

    // x component: p.x + 0 + 0 + 0
    let s1 = rat_add(p.x, zy);
    let s2 = rat_add(s1, zz);
    lemma_add_zero_right(p.x, zy);
    lemma_add_zero_right(s1, zz);
    lemma_add_zero_right(s2, rat_mul(rat_int(0), p.w));
    lemma_mul_nonzero(p.x.d, zy.d);
    lemma_mul_nonzero(s1.d, zz.d);
    lemma_rat_eq_trans(s2, s1, p.x);
    lemma_rat_eq_trans(rat_add(s2, rat_mul(rat_int(0), p.w)), s2, p.x);

    // y component: a1 * p.x + p.y + 0 + 0
    let m1 = rat_mul(a1, p.x);
    let t1 = rat_add(m1, p.y);
    let t2 = rat_add(t1, zz);
    lemma_mul_nonzero(a1.d, p.x.d);
    lemma_mul_nonzero(m1.d, p.y.d);
    lemma_mul_nonzero(t1.d, zz.d);
    lemma_add_zero_right(t1, zz);
    lemma_add_zero_right(t2, rat_mul(rat_int(0), p.w));
    lemma_rat_eq_trans(rat_add(t2, rat_mul(rat_int(0), p.w)), t2, t1);
    lemma_add_comm(m1, p.y);
    lemma_rat_eq_trans(rat_add(t2, rat_mul(rat_int(0), p.w)), t1, rat_add(p.y, m1));

    // z component: a2 * p.x + 0 + p.z + 0
    let m2 = rat_mul(a2, p.x);
    let u1 = rat_add(m2, zy);
    let u2 = rat_add(u1, p.z);
    lemma_mul_nonzero(a2.d, p.x.d);
    lemma_add_zero_right(m2, zy);
    lemma_mul_nonzero(m2.d, zy.d);
    lemma_add_cong(u1, p.z, m2, p.z);
    lemma_mul_nonzero(u1.d, p.z.d);
    lemma_add_zero_right(u2, rat_mul(rat_int(0), p.w));
    lemma_rat_eq_trans(rat_add(u2, rat_mul(rat_int(0), p.w)), u2, rat_add(m2, p.z));
    lemma_add_comm(m2, p.z);
    lemma_mul_nonzero(m2.d, p.z.d);
    lemma_rat_eq_trans(
        rat_add(u2, rat_mul(rat_int(0), p.w)),
        rat_add(m2, p.z),
        rat_add(p.z, m2),
    );

    // w component: 0 + 0 + 0 + 1 * p.w
    let c1 = rat_add(zx, zy);
    let d2 = rat_add(c1, zz);
    lemma_mul_zero_left(zx.n, zy.d);
    lemma_mul_zero_left(zy.n, zx.d);
    lemma_mul_nonzero(zx.d, zy.d);
    lemma_mul_zero_left(c1.n, zz.d);
    lemma_mul_zero_left(zz.n, c1.d);
    lemma_mul_nonzero(c1.d, zz.d);
    lemma_add_zero_left(d2, p.w);
}

/// Shear law for the y axis: the y coordinate is unchanged, x gains a1 * y,
/// z gains a2 * y, and w is kept.
pub proof fn lemma_shear_y_point(a1: Rat, a2: Rat, p: V4)
    requires
        rat_wf(a1),
        rat_wf(a2),
        v4_wf(p),
    ensures
        v4_eq(
            mvmul(shear_y_mat(a1, a2), p),
            (V4 {
                x: rat_add(p.x, rat_mul(a1, p.y)),
                y: p.y,
                z: rat_add(p.z, rat_mul(a2, p.y)),
                w: p.w,
            }),
        ),
{
    let zx = rat_mul(rat_int(0), p.x);
    let zy = rat_mul(rat_int(0), p.y);
    let zz = rat_mul(rat_int(0), p.z);
    let zw = rat_mul(rat_int(0), p.w);

    // x component: p.x + a1 * p.y + 0 + 0
    let m1 = rat_mul(a1, p.y);
    let s1 = rat_add(p.x, m1);
    let s2 = rat_add(s1, zz);
    lemma_mul_nonzero(a1.d, p.y.d);
    lemma_mul_nonzero(p.x.d, m1.d);
    lemma_add_zero_right(s1, zz);
    lemma_mul_nonzero(s1.d, zz.d);
    lemma_add_zero_right(s2, zw);
    lemma_rat_eq_trans(rat_add(s2, zw), s2, s1);

    // y component: 0 + p.y + 0 + 0
    let t1 = rat_add(zx, p.y);
    let t2 = rat_add(t1, zz);
    lemma_add_zero_left(zx, p.y);
    lemma_mul_nonzero(zx.d, p.y.d);
    lemma_add_zero_right(t1, zz);
    lemma_mul_nonzero(t1.d, zz.d);
    lemma_add_zero_right(t2, zw);
    lemma_rat_eq_trans(t2, t1, p.y);
    lemma_rat_eq_trans(rat_add(t2, zw), t2, p.y);

    // z component: 0 + a2 * p.y + p.z + 0
    let m2 = rat_mul(a2, p.y);
    let u1 = rat_add(zx, m2);
    let u2 = rat_add(u1, p.z);
    lemma_mul_nonzero(a2.d, p.y.d);
    lemma_add_zero_left(zx, m2);
    lemma_mul_nonzero(zx.d, m2.d);
    lemma_add_cong(u1, p.z, m2, p.z);
    lemma_mul_nonzero(u1.d, p.z.d);
    lemma_add_zero_right(u2, zw);
    lemma_rat_eq_trans(rat_add(u2, zw), u2, rat_add(m2, p.z));
    lemma_add_comm(m2, p.z);
    lemma_mul_nonzero(m2.d, p.z.d);
    lemma_rat_eq_trans(rat_add(u2, zw), rat_add(m2, p.z), rat_add(p.z, m2));

    // w component: 0 + 0 + 0 + 1 * p.w
    let c1 = rat_add(zx, zy);
    let d2 = rat_add(c1, zz);
    lemma_mul_zero_left(zx.n, zy.d);
    lemma_mul_zero_left(zy.n, zx.d);
    lemma_mul_nonzero(zx.d, zy.d);
    lemma_mul_zero_left(c1.n, zz.d);
    lemma_mul_zero_left(zz.n, c1.d);
    lemma_mul_nonzero(c1.d, zz.d);
    lemma_add_zero_left(d2, p.w);
}

/// Shear law for the z axis: the z coordinate is unchanged, x gains a1 * z,
/// y gains a2 * z, and w is kept.
pub proof fn lemma_shear_z_point(a1: Rat, a2: Rat, p: V4)
    requires
        rat_wf(a1),
        rat_wf(a2),
        v4_wf(p),
    ensures
        v4_eq(
            mvmul(shear_z_mat(a1, a2), p),
            (V4 {
                x: rat_add(p.x, rat_mul(a1, p.z)),
                y: rat_add(p.y, rat_mul(a2, p.z)),
                z: p.z,
                w: p.w,
            }),
        ),
{
    let zx = rat_mul(rat_int(0), p.x);
    let zy = rat_mul(rat_int(0), p.y);
    let zz = rat_mul(rat_int(0), p.z);
    let zw = rat_mul(rat_int(0), p.w);

    // x component: p.x + 0 + a1 * p.z + 0
    let m1 = rat_mul(a1, p.z);
    let s1 = rat_add(p.x, zy);
    let s2 = rat_add(s1, m1);
    lemma_mul_nonzero(a1.d, p.z.d);
    lemma_add_zero_right(p.x, zy);
    lemma_mul_nonzero(p.x.d, zy.d);
    lemma_add_cong(s1, m1, p.x, m1);
    lemma_mul_nonzero(s1.d, m1.d);
    lemma_add_zero_right(s2, zw);
    lemma_rat_eq_trans(rat_add(s2, zw), s2, rat_add(p.x, m1));

    // y component: 0 + p.y + a2 * p.z + 0
    let m2 = rat_mul(a2, p.z);
    let t1 = rat_add(zx, p.y);
    let t2 = rat_add(t1, m2);
    lemma_mul_nonzero(a2.d, p.z.d);
    lemma_add_zero_left(zx, p.y);
    lemma_mul_nonzero(zx.d, p.y.d);
    lemma_add_cong(t1, m2, p.y, m2);
    lemma_mul_nonzero(t1.d, m2.d);
    lemma_add_zero_right(t2, zw);
    lemma_rat_eq_trans(rat_add(t2, zw), t2, rat_add(p.y, m2));

    // z component: 0 + 0 + p.z + 0
    let c1 = rat_add(zx, zy);
    let c2 = rat_add(c1, p.z);
    lemma_mul_zero_left(zx.n, zy.d);
    lemma_mul_zero_left(zy.n, zx.d);
    lemma_mul_nonzero(zx.d, zy.d);
    lemma_add_zero_left(c1, p.z);
    lemma_mul_nonzero(c1.d, p.z.d);
    lemma_add_zero_right(c2, zw);
    lemma_rat_eq_trans(rat_add(c2, zw), c2, p.z);

    // w component: 0 + 0 + 0 + 1 * p.w
    let d2 = rat_add(c1, zz);
    lemma_mul_zero_left(c1.n, zz.d);
    lemma_mul_zero_left(zz.n, c1.d);
    lemma_mul_nonzero(c1.d, zz.d);
    lemma_add_zero_left(d2, p.w);
}

/// Zero-angle rotation law: when the half-angle sine is zero the rotation
/// matrix equals the identity in value, for any axis.
pub proof fn lemma_rotate_zero(a: V3, g: AngV)
    requires
        v3_wf(a),
        ang_wf(g),
        rat_eq(g.s, rat_int(0)),
    ensures
        m4_eq(rotate_mat(a, g), m4_identity()),
{
    let w = g.c;
    let vx = rat_mul(g.s, a.x);
    let vy = rat_mul(g.s, a.y);
    let vz = rat_mul(g.s, a.z);
    lemma_mul_zero_left(g.s.n, a.x.n);
    lemma_mul_zero_left(g.s.n, a.y.n);
    lemma_mul_zero_left(g.s.n, a.z.n);
    let xy = rat_mul(vx, vy);
    let xz = rat_mul(vx, vz);
    let xw = rat_mul(vx, w);
    let x2 = rat_mul(vx, vx);
    let yz = rat_mul(vy, vz);
    let yw = rat_mul(vy, w);
    let y2 = rat_mul(vy, vy);
    let zw = rat_mul(vz, w);
    let z2 = rat_mul(vz, vz);
    lemma_mul_zero_left(vx.n, vy.n);
    lemma_mul_zero_left(vx.n, vz.n);
    lemma_mul_zero_left(vx.n, w.n);
    lemma_mul_zero_left(vx.n, vx.n);
    lemma_mul_zero_left(vy.n, vz.n);
    lemma_mul_zero_left(vy.n, w.n);
    lemma_mul_zero_left(vy.n, vy.n);
    lemma_mul_zero_left(vz.n, w.n);
    lemma_mul_zero_left(vz.n, vz.n);
    // numerators of all pair sums and differences are zero
    lemma_mul_zero_left(y2.n, z2.d);
    lemma_mul_zero_left(z2.n, y2.d);
    lemma_mul_zero_left(xy.n, zw.d);
    lemma_mul_zero_left(zw.n, xy.d);
    lemma_mul_zero_left(xz.n, yw.d);
    lemma_mul_zero_left(yw.n, xz.d);
    lemma_mul_zero_left(x2.n, z2.d);
    lemma_mul_zero_left(z2.n, x2.d);
    lemma_mul_zero_left(yz.n, xw.d);
    lemma_mul_zero_left(xw.n, yz.d);
    lemma_mul_zero_left(x2.n, y2.d);
    lemma_mul_zero_left(y2.n, x2.d);
}

/// Builder order law: a chain that first applies the transform with matrix
/// `a` and then the one with matrix `b` accumulates b * (a * identity),
/// which equals b * a in value -- chaining order is application order.
pub proof fn lemma_builder_order(a: M4, b: M4)
    requires
        m4_wf(a),
        m4_wf(b),
    ensures
        m4_eq(m4_mul(b, m4_mul(a, m4_identity())), m4_mul(b, a)),
{
    lemma_mul_identity_right(a);
    lemma_m4_mul_cong_right(b, m4_mul(a, m4_identity()), a);
}

} // verus!
