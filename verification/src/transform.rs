//! Elementary transform constructors, camera and projection constructors,
//! and the [`Transform`] builder.
//!
//! Each free function returns one 4x4 homogeneous matrix, fully determined
//! by its parameters; the builder folds a chain of them into one matrix by
//! composing every new transform on the left, so that chaining order equals
//! the order in which the transforms take effect on a point.
//!
//! Arithmetic is exact, so two operations of the classical formulations
//! cannot be performed inside the library and are asked of the caller
//! instead: `rotate` takes its axis as given, already of unit length, and
//! `look_at` expects `center - eye` and `up` to be unit vectors (a square
//! root has no exact rational value, so normalization is the caller's step).
//! Degenerate parameters that would divide by zero (an empty projection
//! extent, a zero aspect ratio or field of view) are excluded by
//! precondition rather than silently producing an unusable matrix.

use vstd::prelude::*;

use crate::angle::AngV;
use crate::angle::Angle;
use crate::matrix::M4;
use crate::matrix::Mat4;
use crate::matrix::m4_identity;
use crate::matrix::m4_mul;
use crate::matrix::m4_mul_fits;
use crate::scalar::Scalar;
use crate::scalar::Rat;
use crate::scalar::rat_add;
use crate::scalar::rat_div;
use crate::scalar::rat_fits;
use crate::scalar::rat_int;
use crate::scalar::rat_mul;
use crate::scalar::rat_neg;
use crate::scalar::rat_nonzero;
use crate::scalar::rat_sub;
use crate::vector::V3;
use crate::vector::V4;
use crate::vector::Vec3;
use crate::vector::Vec4;
use crate::vector::cross3;
use crate::vector::cross3_fits;
use crate::vector::dot3;
use crate::vector::dot3_fits;
use crate::vector::v3_sub;
use crate::vector::v3_sub_fits;

verus! {

/// The translation matrix: identity with the offset as the fourth column.
pub open spec fn translate_mat(o: V3) -> M4 {
    M4 {
        c0: V4 { x: rat_int(1), y: rat_int(0), z: rat_int(0), w: rat_int(0) },
        c1: V4 { x: rat_int(0), y: rat_int(1), z: rat_int(0), w: rat_int(0) },
        c2: V4 { x: rat_int(0), y: rat_int(0), z: rat_int(1), w: rat_int(0) },
        c3: V4 { x: o.x, y: o.y, z: o.z, w: rat_int(1) },
    }
}

/// The scale matrix: the per-axis factors on the diagonal.
pub open spec fn scale_mat(f: V3) -> M4 {
    M4 {
        c0: V4 { x: f.x, y: rat_int(0), z: rat_int(0), w: rat_int(0) },
        c1: V4 { x: rat_int(0), y: f.y, z: rat_int(0), w: rat_int(0) },
        c2: V4 { x: rat_int(0), y: rat_int(0), z: f.z, w: rat_int(0) },
        c3: V4 { x: rat_int(0), y: rat_int(0), z: rat_int(0), w: rat_int(1) },
    }
}

/// The shear fixing the yz plane: displaces y by a1*x and z by a2*x.
pub open spec fn shear_x_mat(a1: Rat, a2: Rat) -> M4 {
    M4 {
        c0: V4 { x: rat_int(1), y: a1, z: a2, w: rat_int(0) },
        c1: V4 { x: rat_int(0), y: rat_int(1), z: rat_int(0), w: rat_int(0) },
        c2: V4 { x: rat_int(0), y: rat_int(0), z: rat_int(1), w: rat_int(0) },
        c3: V4 { x: rat_int(0), y: rat_int(0), z: rat_int(0), w: rat_int(1) },
    }
}

/// The shear fixing the xz plane: displaces x by a1*y and z by a2*y.
pub open spec fn shear_y_mat(a1: Rat, a2: Rat) -> M4 {
    M4 {
        c0: V4 { x: rat_int(1), y: rat_int(0), z: rat_int(0), w: rat_int(0) },
        c1: V4 { x: a1, y: rat_int(1), z: a2, w: rat_int(0) },
        c2: V4 { x: rat_int(0), y: rat_int(0), z: rat_int(1), w: rat_int(0) },
        c3: V4 { x: rat_int(0), y: rat_int(0), z: rat_int(0), w: rat_int(1) },
    }
}

/// The shear fixing the xy plane: displaces x by a1*z and y by a2*z.
pub open spec fn shear_z_mat(a1: Rat, a2: Rat) -> M4 {
    M4 {
        c0: V4 { x: rat_int(1), y: rat_int(0), z: rat_int(0), w: rat_int(0) },
        c1: V4 { x: rat_int(0), y: rat_int(1), z: rat_int(0), w: rat_int(0) },
        c2: V4 { x: a1, y: a2, z: rat_int(1), w: rat_int(0) },
        c3: V4 { x: rat_int(0), y: rat_int(0), z: rat_int(0), w: rat_int(1) },
    }
}

/// The rotation matrix about the unit axis `a` by the angle `g`, expanded
/// from the quaternion with scalar part cos(half angle) and vector part
/// sin(half angle) * a.
pub open spec fn rotate_mat(a: V3, g: AngV) -> M4 {
    let w = g.c;
    let vx = rat_mul(g.s, a.x);
    let vy = rat_mul(g.s, a.y);
    let vz = rat_mul(g.s, a.z);
    let xy = rat_mul(vx, vy);
    let xz = rat_mul(vx, vz);
    let xw = rat_mul(vx, w);
    let x2 = rat_mul(vx, vx);
    let yz = rat_mul(vy, vz);
    let yw = rat_mul(vy, w);
    let y2 = rat_mul(vy, vy);
    let zw = rat_mul(vz, w);
    let z2 = rat_mul(vz, vz);
    let one = rat_int(1);
    let two = rat_int(2);
    M4 {
        c0: V4 {
            x: rat_sub(one, rat_mul(two, rat_add(y2, z2))),
            y: rat_mul(two, rat_add(xy, zw)),
            z: rat_mul(two, rat_sub(xz, yw)),
            w: rat_int(0),
        },
        c1: V4 {
            x: rat_mul(two, rat_sub(xy, zw)),
            y: rat_sub(one, rat_mul(two, rat_add(x2, z2))),
            z: rat_mul(two, rat_add(yz, xw)),
            w: rat_int(0),
        },
        c2: V4 {
            x: rat_mul(two, rat_add(xz, yw)),
            y: rat_mul(two, rat_sub(yz, xw)),
            z: rat_sub(one, rat_mul(two, rat_add(x2, y2))),
            w: rat_int(0),
        },
        c3: V4 { x: rat_int(0), y: rat_int(0), z: rat_int(0), w: one },
    }
}

/// Machine limits for every intermediate of the rotation matrix.
pub open spec fn rotate_fits(a: V3, g: AngV) -> bool {
    let w = g.c;
    let vx = rat_mul(g.s, a.x);
    let vy = rat_mul(g.s, a.y);
    let vz = rat_mul(g.s, a.z);
    let xy = rat_mul(vx, vy);
    let xz = rat_mul(vx, vz);
    let xw = rat_mul(vx, w);
    let x2 = rat_mul(vx, vx);
    let yz = rat_mul(vy, vz);
    let yw = rat_mul(vy, w);
    let y2 = rat_mul(vy, vy);
    let zw = rat_mul(vz, w);
    let z2 = rat_mul(vz, vz);
    let one = rat_int(1);
    let two = rat_int(2);
    rat_fits(vx) && rat_fits(vy) && rat_fits(vz) && rat_fits(xy) && rat_fits(xz) && rat_fits(xw)
        && rat_fits(x2) && rat_fits(yz) && rat_fits(yw) && rat_fits(y2) && rat_fits(zw)
        && rat_fits(z2) && rat_fits(rat_add(y2, z2)) && rat_fits(rat_mul(two, rat_add(y2, z2)))
        && rat_fits(rat_sub(one, rat_mul(two, rat_add(y2, z2)))) && rat_fits(rat_add(xy, zw))
        && rat_fits(rat_mul(two, rat_add(xy, zw))) && rat_fits(rat_sub(xz, yw)) && rat_fits(
        rat_mul(two, rat_sub(xz, yw)),
    ) && rat_fits(rat_sub(xy, zw)) && rat_fits(rat_mul(two, rat_sub(xy, zw))) && rat_fits(
        rat_add(x2, z2),
    ) && rat_fits(rat_mul(two, rat_add(x2, z2))) && rat_fits(
        rat_sub(one, rat_mul(two, rat_add(x2, z2))),
    ) && rat_fits(rat_add(yz, xw)) && rat_fits(rat_mul(two, rat_add(yz, xw))) && rat_fits(
        rat_add(xz, yw),
    ) && rat_fits(rat_mul(two, rat_add(xz, yw))) && rat_fits(rat_sub(yz, xw)) && rat_fits(
        rat_mul(two, rat_sub(yz, xw)),
    ) && rat_fits(rat_add(x2, y2)) && rat_fits(rat_mul(two, rat_add(x2, y2))) && rat_fits(
        rat_sub(one, rat_mul(two, rat_add(x2, y2))),
    )
}

/// The look-at view matrix for unit `center - eye` and unit `up`: the camera
/// basis as rows, with the translation expressing `-eye` in that basis.
pub open spec fn look_at_mat(eye: V3, center: V3, up: V3) -> M4 {
    let facing = v3_sub(center, eye);
    let horiz = cross3(facing, up);
    let cam_up = cross3(horiz, facing);
    M4 {
        c0: V4 { x: horiz.x, y: cam_up.x, z: rat_neg(facing.x), w: rat_int(0) },
        c1: V4 { x: horiz.y, y: cam_up.y, z: rat_neg(facing.y), w: rat_int(0) },
        c2: V4 { x: horiz.z, y: cam_up.z, z: rat_neg(facing.z), w: rat_int(0) },
        c3: V4 {
            x: rat_neg(dot3(eye, horiz)),
            y: rat_neg(dot3(eye, cam_up)),
            z: dot3(eye, facing),
            w: rat_int(1),
        },
    }
}

/// Machine limits for every intermediate of the look-at matrix.
pub open spec fn look_at_fits(eye: V3, center: V3, up: V3) -> bool {
    let facing = v3_sub(center, eye);
    let horiz = cross3(facing, up);
    let cam_up = cross3(horiz, facing);
    v3_sub_fits(center, eye) && cross3_fits(facing, up) && cross3_fits(horiz, facing)
        && dot3_fits(eye, horiz) && dot3_fits(eye, cam_up) && dot3_fits(eye, facing)
}

/// The orthographic normalization matrix: maps the box with x in [l, r],
/// y in [b, t] and z in [-n, -f] linearly onto the cube [-1, 1]^3, with the
/// near plane at normalized depth -1 and the far plane at +1.
pub open spec fn ortho_mat(l: Rat, r: Rat, b: Rat, t: Rat, n: Rat, f: Rat) -> M4 {
    let two = rat_int(2);
    let rl = rat_sub(r, l);
    let tb = rat_sub(t, b);
    let fmn = rat_sub(f, n);
    M4 {
        c0: V4 { x: rat_div(two, rl), y: rat_int(0), z: rat_int(0), w: rat_int(0) },
        c1: V4 { x: rat_int(0), y: rat_div(two, tb), z: rat_int(0), w: rat_int(0) },
        c2: V4 { x: rat_int(0), y: rat_int(0), z: rat_neg(rat_div(two, fmn)), w: rat_int(0) },
        c3: V4 {
            x: rat_neg(rat_div(rat_add(r, l), rl)),
            y: rat_neg(rat_div(rat_add(t, b), tb)),
            z: rat_neg(rat_div(rat_add(f, n), fmn)),
            w: rat_int(1),
        },
    }
}

/// Nonzero extents and machine limits for the orthographic matrix.
pub open spec fn ortho_req(l: Rat, r: Rat, b: Rat, t: Rat, n: Rat, f: Rat) -> bool {
    let two = rat_int(2);
    let rl = rat_sub(r, l);
    let tb = rat_sub(t, b);
    let fmn = rat_sub(f, n);
    rat_nonzero(rl) && rat_nonzero(tb) && rat_nonzero(fmn) && rat_fits(rl) && rat_fits(tb)
        && rat_fits(fmn) && rat_fits(rat_div(two, rl)) && rat_fits(rat_div(two, tb)) && rat_fits(
        rat_div(two, fmn),
    ) && rat_fits(rat_add(r, l)) && rat_fits(rat_div(rat_add(r, l), rl)) && rat_fits(
        rat_add(t, b),
    ) && rat_fits(rat_div(rat_add(t, b), tb)) && rat_fits(rat_add(f, n)) && rat_fits(
        rat_div(rat_add(f, n), fmn),
    )
}

/// The frustum normalization matrix: maps the asymmetric frustum with apex
/// at the origin, near face at z = -n with x in [l, r] and y in [b, t], and
/// far face at z = -f, onto the cube [-1, 1]^3 via the perspective divide.
pub open spec fn frustum_mat(l: Rat, r: Rat, b: Rat, t: Rat, n: Rat, f: Rat) -> M4 {
    let two = rat_int(2);
    let rl = rat_sub(r, l);
    let tb = rat_sub(t, b);
    let fmn = rat_sub(f, n);
    let n2 = rat_mul(two, n);
    M4 {
        c0: V4 { x: rat_div(n2, rl), y: rat_int(0), z: rat_int(0), w: rat_int(0) },
        c1: V4 { x: rat_int(0), y: rat_div(n2, tb), z: rat_int(0), w: rat_int(0) },
        c2: V4 {
            x: rat_div(rat_add(r, l), rl),
            y: rat_div(rat_add(t, b), tb),
            z: rat_neg(rat_div(rat_add(f, n), fmn)),
            w: rat_int(-1),
        },
        c3: V4 {
            x: rat_int(0),
            y: rat_int(0),
            z: rat_neg(rat_div(rat_mul(rat_mul(two, f), n), fmn)),
            w: rat_int(0),
        },
    }
}

/// Nonzero extents and machine limits for the frustum matrix.
pub open spec fn frustum_req(l: Rat, r: Rat, b: Rat, t: Rat, n: Rat, f: Rat) -> bool {
    let two = rat_int(2);
    let rl = rat_sub(r, l);
    let tb = rat_sub(t, b);
    let fmn = rat_sub(f, n);
    let n2 = rat_mul(two, n);
    rat_nonzero(rl) && rat_nonzero(tb) && rat_nonzero(fmn) && rat_fits(rl) && rat_fits(tb)
        && rat_fits(fmn) && rat_fits(n2) && rat_fits(rat_div(n2, rl)) && rat_fits(rat_div(n2, tb))
        && rat_fits(rat_add(r, l)) && rat_fits(rat_div(rat_add(r, l), rl)) && rat_fits(
        rat_add(t, b),
    ) && rat_fits(rat_div(rat_add(t, b), tb)) && rat_fits(rat_add(f, n)) && rat_fits(
        rat_div(rat_add(f, n), fmn),
    ) && rat_fits(rat_mul(two, f)) && rat_fits(rat_mul(rat_mul(two, f), n)) && rat_fits(
        rat_div(rat_mul(rat_mul(two, f), n), fmn),
    )
}

/// The symmetric perspective matrix: vertical field of view `g`, horizontal
/// extent derived from the width/height ratio `aspect`, near plane at -n and
/// far plane at -f mapped to normalized depths -1 and +1.
pub open spec fn perspective_mat(g: AngV, aspect: Rat, n: Rat, f: Rat) -> M4 {
    let th = rat_div(g.s, g.c);
    let fmn = rat_sub(f, n);
    let two = rat_int(2);
    M4 {
        c0: V4 {
            x: rat_div(rat_int(1), rat_mul(aspect, th)),
            y: rat_int(0),
            z: rat_int(0),
            w: rat_int(0),
        },
        c1: V4 { x: rat_int(0), y: rat_div(rat_int(1), th), z: rat_int(0), w: rat_int(0) },
        c2: V4 {
            x: rat_int(0),
            y: rat_int(0),
            z: rat_neg(rat_div(rat_add(f, n), fmn)),
            w: rat_int(-1),
        },
        c3: V4 {
            x: rat_int(0),
            y: rat_int(0),
            z: rat_neg(rat_div(rat_mul(rat_mul(two, f), n), fmn)),
            w: rat_int(0),
        },
    }
}

/// Nonzero field of view, aspect and depth extent, and machine limits, for
/// the perspective matrix.
pub open spec fn perspective_req(g: AngV, aspect: Rat, n: Rat, f: Rat) -> bool {
    let th = rat_div(g.s, g.c);
    let fmn = rat_sub(f, n);
    let two = rat_int(2);
    rat_nonzero(g.c) && rat_nonzero(th) && rat_nonzero(rat_mul(aspect, th)) && rat_nonzero(fmn)
        && rat_fits(th) && rat_fits(rat_mul(aspect, th)) && rat_fits(
        rat_div(rat_int(1), rat_mul(aspect, th)),
    ) && rat_fits(rat_div(rat_int(1), th)) && rat_fits(fmn) && rat_fits(rat_add(f, n))
        && rat_fits(rat_div(rat_add(f, n), fmn)) && rat_fits(rat_mul(two, f)) && rat_fits(
        rat_mul(rat_mul(two, f), n),
    ) && rat_fits(rat_div(rat_mul(rat_mul(two, f), n), fmn))
}

/// Get the homogeneous transformation matrix of a translation by the given
/// offset.  A point's homogeneous w component must be 1 for the translation
/// to apply.
pub fn translate(offset: Vec3) -> (r: Mat4)
    requires
        offset.wf(),
    ensures
        r.wf(),
        r@ == translate_mat(offset@),
{
    let o = Scalar::one();
    let z = Scalar::zero();
    Mat4 {
        c0: Vec4 { x: o, y: z, z: z, w: z },
        c1: Vec4 { x: z, y: o, z: z, w: z },
        c2: Vec4 { x: z, y: z, z: o, w: z },
        c3: Vec4 { x: offset.x, y: offset.y, z: offset.z, w: o },
    }
}

/// Get the homogeneous transformation matrix of a scale by the given
/// factors, applied independently per axis.
pub fn scale(factor: Vec3) -> (r: Mat4)
    requires
        factor.wf(),
    ensures
        r.wf(),
        r@ == scale_mat(factor@),
{
    let o = Scalar::one();
    let z = Scalar::zero();
    Mat4 {
        c0: Vec4 { x: factor.x, y: z, z: z, w: z },
        c1: Vec4 { x: z, y: factor.y, z: z, w: z },
        c2: Vec4 { x: z, y: z, z: factor.z, w: z },
        c3: Vec4 { x: z, y: z, z: z, w: o },
    }
}

/// Get the homogeneous transformation matrix of a shear fixing the yz plane
/// by the given amounts parallel to the y and z axes.
pub fn shear_x(y_amount: Scalar, z_amount: Scalar) -> (r: Mat4)
    requires
        y_amount.wf(),
        z_amount.wf(),
    ensures
        r.wf(),
        r@ == shear_x_mat(y_amount@, z_amount@),
{
    let o = Scalar::one();
    let z = Scalar::zero();
    Mat4 {
        c0: Vec4 { x: o, y: y_amount, z: z_amount, w: z },
        c1: Vec4 { x: z, y: o, z: z, w: z },
        c2: Vec4 { x: z, y: z, z: o, w: z },
        c3: Vec4 { x: z, y: z, z: z, w: o },
    }
}

/// Get the homogeneous transformation matrix of a shear fixing the xz plane
/// by the given amounts parallel to the x and z axes.
pub fn shear_y(x_amount: Scalar, z_amount: Scalar) -> (r: Mat4)
    requires
        x_amount.wf(),
        z_amount.wf(),
    ensures
        r.wf(),
        r@ == shear_y_mat(x_amount@, z_amount@),
{
    let o = Scalar::one();
    let z = Scalar::zero();
    Mat4 {
        c0: Vec4 { x: o, y: z, z: z, w: z },
        c1: Vec4 { x: x_amount, y: o, z: z_amount, w: z },
        c2: Vec4 { x: z, y: z, z: o, w: z },
        c3: Vec4 { x: z, y: z, z: z, w: o },
    }
}

/// Get the homogeneous transformation matrix of a shear fixing the xy plane
/// by the given amounts parallel to the x and y axes.
pub fn shear_z(x_amount: Scalar, y_amount: Scalar) -> (r: Mat4)
    requires
        x_amount.wf(),
        y_amount.wf(),
    ensures
        r.wf(),
        r@ == shear_z_mat(x_amount@, y_amount@),
{
    let o = Scalar::one();
    let z = Scalar::zero();
    Mat4 {
        c0: Vec4 { x: o, y: z, z: z, w: z },
        c1: Vec4 { x: z, y: o, z: z, w: z },
        c2: Vec4 { x: x_amount, y: y_amount, z: o, w: z },
        c3: Vec4 { x: z, y: z, z: z, w: o },
    }
}

/// Get the homogeneous transformation matrix of a rotation about the given
/// axis by the given angle.  The axis is taken as given and must already be
/// of unit length; a zero or non-unit axis yields a matrix that is not a
/// rotation (the classical degenerate case callers must avoid).
pub fn rotate(axis: Vec3, angle: Angle) -> (r: Mat4)
    requires
        axis.wf(),
        angle.wf(),
        rotate_fits(axis@, angle@),
    ensures
        r.wf(),
        r@ == rotate_mat(axis@, angle@),
{
    let w = angle.cos_half;
    let vx = angle.sin_half.mul(axis.x);
    let vy = angle.sin_half.mul(axis.y);
    let vz = angle.sin_half.mul(axis.z);

    let xy = vx.mul(vy);
    let xz = vx.mul(vz);
    let xw = vx.mul(w);
    let x2 = vx.mul(vx);
    let yz = vy.mul(vz);
    let yw = vy.mul(w);
    let y2 = vy.mul(vy);
    let zw = vz.mul(w);
    let z2 = vz.mul(vz);

    let one = Scalar::one();
    let two = Scalar::from_int(2);
    let zero = Scalar::zero();
    Mat4 {
        c0: Vec4 {
            x: one.sub(two.mul(y2.add(z2))),
            y: two.mul(xy.add(zw)),
            z: two.mul(xz.sub(yw)),
            w: zero,
        },
        c1: Vec4 {
            x: two.mul(xy.sub(zw)),
            y: one.sub(two.mul(x2.add(z2))),
            z: two.mul(yz.add(xw)),
            w: zero,
        },
        c2: Vec4 {
            x: two.mul(xz.add(yw)),
            y: two.mul(yz.sub(xw)),
            z: one.sub(two.mul(x2.add(y2))),
            w: zero,
        },
        c3: Vec4 { x: zero, y: zero, z: zero, w: one },
    }
}

/// Build a look-at view matrix from the camera position `eye`, the point
/// `center` the camera faces, and the upwards direction `up`.
///
/// `center - eye` and `up` must already be unit vectors (normalization has
/// no exact rational value).  An `up` parallel to the facing direction
/// yields a singular matrix; that case is not detected, as documented.
pub fn look_at(eye: &Vec3, center: &Vec3, up: &Vec3) -> (r: Mat4)
    requires
        eye.wf(),
        center.wf(),
        up.wf(),
        look_at_fits(eye@, center@, up@),
    ensures
        r.wf(),
        r@ == look_at_mat(eye@, center@, up@),
{
    let facing = center.sub(eye);
    let horiz = facing.cross(up);
    let cam_up = horiz.cross(&facing);

    let tx = eye.dot(&horiz).neg();
    let ty = eye.dot(&cam_up).neg();
    let tz = eye.dot(&facing);

    let o = Scalar::one();
    let z = Scalar::zero();
    Mat4 {
        c0: Vec4 { x: horiz.x, y: cam_up.x, z: facing.x.neg(), w: z },
        c1: Vec4 { x: horiz.y, y: cam_up.y, z: facing.y.neg(), w: z },
        c2: Vec4 { x: horiz.z, y: cam_up.z, z: facing.z.neg(), w: z },
        c3: Vec4 { x: tx, y: ty, z: tz, w: o },
    }
}

/// Build an orthographic normalization matrix for the axis-aligned box with
/// x in [left, right], y in [bottom, top] and z in [-near, -far], mapped
/// onto the canonical cube with near at normalized depth -1 and far at +1.
pub fn ortho(left: Scalar, right: Scalar, bottom: Scalar, top: Scalar, near: Scalar, far: Scalar) -> (r: Mat4)
    requires
        left.wf(),
        right.wf(),
        bottom.wf(),
        top.wf(),
        near.wf(),
        far.wf(),
        ortho_req(left@, right@, bottom@, top@, near@, far@),
    ensures
        r.wf(),
        r@ == ortho_mat(left@, right@, bottom@, top@, near@, far@),
{
    let two = Scalar::from_int(2);
    let rl = right.sub(left);
    let tb = top.sub(bottom);
    let fmn = far.sub(near);

    let e00 = two.div(rl);
    let e11 = two.div(tb);
    let e22 = two.div(fmn).neg();
    let e03 = right.add(left).div(rl).neg();
    let e13 = top.add(bottom).div(tb).neg();
    let e23 = far.add(near).div(fmn).neg();

    let o = Scalar::one();
    let z = Scalar::zero();
    Mat4 {
        c0: Vec4 { x: e00, y: z, z: z, w: z },
        c1: Vec4 { x: z, y: e11, z: z, w: z },
        c2: Vec4 { x: z, y: z, z: e22, w: z },
        c3: Vec4 { x: e03, y: e13, z: e23, w: o },
    }
}

/// Construct a frustum normalization matrix: apex at the origin, near face
/// at z = -near with x in [left, right] and y in [bottom, top], far face at
/// z = -far, mapped onto the canonical cube via the perspective divide.
pub fn frustum(left: Scalar, right: Scalar, bottom: Scalar, top: Scalar, near: Scalar, far: Scalar) -> (r: Mat4)
    requires
        left.wf(),
        right.wf(),
        bottom.wf(),
        top.wf(),
        near.wf(),
        far.wf(),
        frustum_req(left@, right@, bottom@, top@, near@, far@),
    ensures
        r.wf(),
        r@ == frustum_mat(left@, right@, bottom@, top@, near@, far@),
{
    let two = Scalar::from_int(2);
    let rl = right.sub(left);
    let tb = top.sub(bottom);
    let fmn = far.sub(near);
    let n2 = two.mul(near);

    let e00 = n2.div(rl);
    let e11 = n2.div(tb);
    let e02 = right.add(left).div(rl);
    let e12 = top.add(bottom).div(tb);
    let e22 = far.add(near).div(fmn).neg();
    let e23 = two.mul(far).mul(near).div(fmn).neg();

    let z = Scalar::zero();
    let m1 = Scalar::from_int(-1);
    Mat4 {
        c0: Vec4 { x: e00, y: z, z: z, w: z },
        c1: Vec4 { x: z, y: e11, z: z, w: z },
        c2: Vec4 { x: e02, y: e12, z: e22, w: m1 },
        c3: Vec4 { x: z, y: z, z: e23, w: z },
    }
}

/// Build a perspective normalization matrix: vertical field of view `fovy`,
/// horizontal extent derived from the width/height ratio `aspect_xy`, near
/// and far planes at z = -near and z = -far mapped to normalized depths -1
/// and +1.
pub fn perspective(fovy: Angle, aspect_xy: Scalar, near: Scalar, far: Scalar) -> (r: Mat4)
    requires
        fovy.wf(),
        aspect_xy.wf(),
        near.wf(),
        far.wf(),
        perspective_req(fovy@, aspect_xy@, near@, far@),
    ensures
        r.wf(),
        r@ == perspective_mat(fovy@, aspect_xy@, near@, far@),
{
    let tan_half_fov = fovy.sin_half.div(fovy.cos_half);
    let two = Scalar::from_int(2);
    let fmn = far.sub(near);
    let one = Scalar::one();

    let e00 = one.div(aspect_xy.mul(tan_half_fov));
    let e11 = one.div(tan_half_fov);
    let e22 = far.add(near).div(fmn).neg();
    let e23 = two.mul(far).mul(near).div(fmn).neg();

    let z = Scalar::zero();
    let m1 = Scalar::from_int(-1);
    Mat4 {
        c0: Vec4 { x: e00, y: z, z: z, w: z },
        c1: Vec4 { x: z, y: e11, z: z, w: z },
        c2: Vec4 { x: z, y: z, z: e22, w: m1 },
        c3: Vec4 { x: z, y: z, z: e23, w: z },
    }
}

/// A builder struct for homogeneous transformation matrices.
///
/// A `Transform` starts as the identity and accumulates elementary
/// transforms; the final matrix is obtained via `finish`.  Each builder
/// method applies its transform after those of the preceding methods: in
/// matrix terms it multiplies the new matrix on the left, so a chain
/// computes `M_n * ... * M_1 * identity`, the matrix that applies `M_1`
/// first to a point.  Every method consumes the builder by value and
/// returns a new one; no value is ever mutated in place.
#[derive(Clone, Copy, Debug)]
pub struct Transform {
    pub mat: Mat4,
}

impl View for Transform {
    type V = M4;

    open spec fn view(&self) -> M4 {
        self.mat@
    }
}

impl Transform {
    pub open spec fn wf(self) -> bool {
        self.mat.wf()
    }

    /// Create a new `Transform`, initially the identity transformation.
    pub fn new() -> (t: Transform)
        ensures
            t.wf(),
            t@ == m4_identity(),
    {
        Transform { mat: Mat4::identity() }
    }

    /// Translate by the given offset, after everything accumulated so far.
    pub fn translate(self, offset: Vec3) -> (t: Transform)
        requires
            self.wf(),
            offset.wf(),
            m4_mul_fits(translate_mat(offset@), self@),
        ensures
            t.wf(),
            t@ == m4_mul(translate_mat(offset@), self@),
    {
        Transform { mat: translate(offset).mul(&self.mat) }
    }

    /// Scale by the given per-axis factors, after everything accumulated so
    /// far.
    pub fn scale(self, factor: Vec3) -> (t: Transform)
        requires
            self.wf(),
            factor.wf(),
            m4_mul_fits(scale_mat(factor@), self@),
        ensures
            t.wf(),
            t@ == m4_mul(scale_mat(factor@), self@),
    {
        Transform { mat: scale(factor).mul(&self.mat) }
    }

    /// Shear the x axis by the given amounts along the y and z axes, after
    /// everything accumulated so far.
    pub fn shear_x(self, y_amount: Scalar, z_amount: Scalar) -> (t: Transform)
        requires
            self.wf(),
            y_amount.wf(),
            z_amount.wf(),
            m4_mul_fits(shear_x_mat(y_amount@, z_amount@), self@),
        ensures
            t.wf(),
            t@ == m4_mul(shear_x_mat(y_amount@, z_amount@), self@),
    {
        Transform { mat: shear_x(y_amount, z_amount).mul(&self.mat) }
    }

    /// Shear the y axis by the given amounts along the x and z axes, after
    /// everything accumulated so far.
    pub fn shear_y(self, x_amount: Scalar, z_amount: Scalar) -> (t: Transform)
        requires
            self.wf(),
            x_amount.wf(),
            z_amount.wf(),
            m4_mul_fits(shear_y_mat(x_amount@, z_amount@), self@),
        ensures
            t.wf(),
            t@ == m4_mul(shear_y_mat(x_amount@, z_amount@), self@),
    {
        Transform { mat: shear_y(x_amount, z_amount).mul(&self.mat) }
    }

    /// Shear the z axis by the given amounts along the x and y axes, after
    /// everything accumulated so far.
    pub fn shear_z(self, x_amount: Scalar, y_amount: Scalar) -> (t: Transform)
        requires
            self.wf(),
            x_amount.wf(),
            y_amount.wf(),
            m4_mul_fits(shear_z_mat(x_amount@, y_amount@), self@),
        ensures
            t.wf(),
            t@ == m4_mul(shear_z_mat(x_amount@, y_amount@), self@),
    {
        Transform { mat: shear_z(x_amount, y_amount).mul(&self.mat) }
    }

    /// Rotate about the given unit axis by the given angle, after everything
    /// accumulated so far.
    pub fn rotate(self, axis: Vec3, angle: Angle) -> (t: Transform)
        requires
            self.wf(),
            axis.wf(),
            angle.wf(),
            rotate_fits(axis@, angle@),
            m4_mul_fits(rotate_mat(axis@, angle@), self@),
        ensures
            t.wf(),
            t@ == m4_mul(rotate_mat(axis@, angle@), self@),
    {
        Transform { mat: rotate(axis, angle).mul(&self.mat) }
    }

    /// Apply an arbitrary homogeneous matrix, after everything accumulated
    /// so far.
    pub fn arbitrary(self, transform: Mat4) -> (t: Transform)
        requires
            self.wf(),
            transform.wf(),
            m4_mul_fits(transform@, self@),
        ensures
            t.wf(),
            t@ == m4_mul(transform@, self@),
    {
        Transform { mat: transform.mul(&self.mat) }
    }

    /// Acquire the accumulated homogeneous transformation matrix without
    /// consuming the builder.
    pub fn finish(&self) -> (r: Mat4)
        requires
            self.wf(),
        ensures
            r.wf(),
            r@ == self@,
    {
        self.mat
    }
}

impl Default for Transform {
    /// The default `Transform` is the identity, the same as `new`.
    fn default() -> (t: Transform)
        ensures
            t.wf(),
            t@ == m4_identity(),
    {
        Transform::new()
    }
}

} // verus!
