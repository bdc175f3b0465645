use gramit::angle::Angle;
use gramit::matrix::Mat4;
use gramit::scalar::Scalar;
use gramit::transform::Transform;
use gramit::transform::frustum;
use gramit::transform::look_at;
use gramit::transform::ortho;
use gramit::transform::perspective;
use gramit::transform::rotate;
use gramit::transform::scale;
use gramit::transform::shear_x;
use gramit::transform::shear_y;
use gramit::transform::shear_z;
use gramit::transform::translate;
use gramit::vector::Vec3;
use gramit::vector::Vec4;

fn s(i: i64) -> Scalar {
    Scalar::new(i, 1)
}

fn v3(x: i64, y: i64, z: i64) -> Vec3 {
    Vec3::new(s(x), s(y), s(z))
}

#[test]
fn test_translate() {
    for vx in -4i64..=4 {
        for vy in -4i64..=4 {
            for vz in -4i64..=4 {
                for ox in -4i64..=4 {
                    let v = v3(vx, vy, vz);
                    let o = v3(ox, (vx + ox).rem_euclid(9) - 4, (vy - ox).rem_euclid(9) - 4);
                    let expected = Vec3::new(v.x.add(o.x), v.y.add(o.y), v.z.add(o.z));
                    let m = translate(o);
                    let vt = m.apply(&v.extend(s(1))).truncate();
                    assert!(
                        vt.eq_val(&expected),
                        "Failure with v = {:?}, offset = {:?}. Expected {:?}, got {:?}.",
                        v,
                        o,
                        expected,
                        vt
                    );
                }
            }
        }
    }
}

#[test]
fn test_scale() {
    for vx in -4i64..=4 {
        for vy in -4i64..=4 {
            for vz in -4i64..=4 {
                for f in -4i64..=4 {
                    let v = v3(vx, vy, vz);
                    let k = v3(f, (vx + f).rem_euclid(9) - 4, (vz - f).rem_euclid(9) - 4);
                    let expected = Vec3::new(v.x.mul(k.x), v.y.mul(k.y), v.z.mul(k.z));
                    let m = scale(k);
                    let vt = m.apply(&v.extend(s(1))).truncate();
                    assert!(
                        vt.eq_val(&expected),
                        "Failure with v = {:?}, scale = {:?}. Expected {:?}, got {:?}.",
                        v,
                        k,
                        expected,
                        vt
                    );
                }
            }
        }
    }
}

#[test]
fn test_shear() {
    for vx in -4i64..=4 {
        for vy in -4i64..=4 {
            for vz in -4i64..=4 {
                for a1 in -4i64..=4 {
                    for a2 in -4i64..=4 {
                        let v = v3(vx, vy, vz);
                        let (m1, m2) = (s(a1), s(a2));
                        let expectedx =
                            Vec3::new(v.x, v.y.add(v.x.mul(m1)), v.z.add(v.x.mul(m2)));
                        let expectedy =
                            Vec3::new(v.x.add(v.y.mul(m1)), v.y, v.z.add(v.y.mul(m2)));
                        let expectedz =
                            Vec3::new(v.x.add(v.z.mul(m1)), v.y.add(v.z.mul(m2)), v.z);

                        let h = v.extend(s(1));
                        let vtx = shear_x(m1, m2).apply(&h).truncate();
                        let vty = shear_y(m1, m2).apply(&h).truncate();
                        let vtz = shear_z(m1, m2).apply(&h).truncate();

                        assert!(
                            vtx.eq_val(&expectedx),
                            "Failure with v = {:?}, shear_x({}, {}). Expected {:?}, got {:?}.",
                            v,
                            a1,
                            a2,
                            expectedx,
                            vtx
                        );
                        assert!(
                            vty.eq_val(&expectedy),
                            "Failure with v = {:?}, shear_y({}, {}). Expected {:?}, got {:?}.",
                            v,
                            a1,
                            a2,
                            expectedy,
                            vty
                        );
                        assert!(
                            vtz.eq_val(&expectedz),
                            "Failure with v = {:?}, shear_z({}, {}). Expected {:?}, got {:?}.",
                            v,
                            a1,
                            a2,
                            expectedz,
                            vtz
                        );
                    }
                }
            }
        }
    }
}

#[test]
fn test_rotate() {
    // A half turn about the y axis negates x and z.
    let m = rotate(v3(0, 1, 0), Angle::half_turn());
    let p = v3(1, 2, 3).extend(s(1));
    let r = m.apply(&p).truncate();
    assert!(r.eq_val(&v3(-1, 2, -3)));

    // The zero angle rotates nothing, whatever the axis.
    let id = rotate(v3(0, 0, 1), Angle::zero());
    assert!(id.eq_val(&Mat4::identity()));

    // Rotating by an angle and then by its opposite about the same axis is
    // the identity; the 3-4-5 pair gives an exact rational angle.
    let ang = Angle::new(Scalar::new(3, 5), Scalar::new(4, 5));
    let fwd = rotate(v3(0, 0, 1), ang);
    let back = rotate(v3(0, 0, 1), ang.neg());
    assert!(fwd.mul(&back).eq_val(&Mat4::identity()));
}

#[test]
fn test_builder_order() {
    // new().A().B().finish() equals B_matrix * A_matrix: A is applied first.
    let o = v3(1, 2, 3);
    let f = v3(2, -1, 4);
    let chained = Transform::new().translate(o).scale(f).finish();
    let direct = scale(f).mul(&translate(o));
    assert!(chained.eq_val(&direct));

    let arb = Transform::new().arbitrary(translate(o)).arbitrary(scale(f)).finish();
    assert!(arb.eq_val(&direct));

    // finish is read-only and repeatable, and the default is the identity.
    let t = Transform::new().translate(o);
    assert!(t.finish().eq_val(&t.finish()));
    assert!(Transform::default().finish().eq_val(&Mat4::identity()));
}

#[test]
fn test_shear_then_rotate_end_to_end() {
    // Shearing (1, 0, 0) one unit along y gives (1, 1, 0); the half turn
    // about the y axis then negates x and z, giving (-1, 1, 0).
    let m = Transform::new()
        .shear_x(s(1), s(0))
        .rotate(v3(0, 1, 0), Angle::half_turn())
        .finish();
    let r = m.apply(&v3(1, 0, 0).extend(s(1))).truncate();
    assert!(r.eq_val(&v3(-1, 1, 0)));
}

#[test]
fn test_ortho_corners() {
    // The box corners land exactly on the corners of the canonical cube.
    let m = ortho(s(-2), s(4), s(-1), s(3), s(1), s(5));
    let low = m.apply(&Vec4::new(s(-2), s(-1), s(-1), s(1)));
    assert!(low.eq_val(&Vec4::new(s(-1), s(-1), s(-1), s(1))));
    let high = m.apply(&Vec4::new(s(4), s(3), s(-5), s(1)));
    assert!(high.eq_val(&Vec4::new(s(1), s(1), s(1), s(1))));
    let mixed = m.apply(&Vec4::new(s(-2), s(3), s(-5), s(1)));
    assert!(mixed.eq_val(&Vec4::new(s(-1), s(1), s(1), s(1))));
}

#[test]
fn test_perspective_depths() {
    // tan of the half field of view is 3/4; aspect 2, near 1, far 5.
    let fovy = Angle::new(Scalar::new(3, 5), Scalar::new(4, 5));
    let m = perspective(fovy, s(2), s(1), s(5));

    let near_pt = m.apply(&Vec4::new(s(0), s(0), s(-1), s(1)));
    // After dividing by w, z is -1: z == -w with w nonzero.
    assert!(near_pt.z.eq_val(near_pt.w.neg()));
    assert!(near_pt.w.eq_val(s(1)));

    let far_pt = m.apply(&Vec4::new(s(0), s(0), s(-5), s(1)));
    assert!(far_pt.z.eq_val(far_pt.w));
    assert!(far_pt.w.eq_val(s(5)));
}

#[test]
fn test_frustum_near_corner() {
    let m = frustum(s(-1), s(1), s(-1), s(1), s(1), s(3));
    let c = m.apply(&Vec4::new(s(-1), s(-1), s(-1), s(1)));
    // After dividing by w the near corner is (-1, -1, -1); here w is n.
    assert!(c.w.eq_val(s(1)));
    assert!(c.x.eq_val(c.w.neg()));
    assert!(c.y.eq_val(c.w.neg()));
    assert!(c.z.eq_val(c.w.neg()));
}

#[test]
fn test_look_at_basis() {
    // Camera at the origin looking down the negative z axis with y up:
    // the view matrix is the identity.
    let eye = v3(0, 0, 0);
    let center = v3(0, 0, -1);
    let up = v3(0, 1, 0);
    let m = look_at(&eye, &center, &up);
    assert!(m.eq_val(&Mat4::identity()));

    // Moving the camera along x shifts world x into the translation slot.
    let eye2 = v3(2, 0, 0);
    let center2 = v3(2, 0, -1);
    let m2 = look_at(&eye2, &center2, &up);
    let p = m2.apply(&v3(2, 0, -5).extend(s(1))).truncate();
    assert!(p.eq_val(&v3(0, 0, -5)));
}

#[test]
fn test_scalar_arithmetic() {
    let a = Scalar::new(1, 2);
    let b = Scalar::new(1, 3);
    assert!(a.add(b).eq_val(Scalar::new(5, 6)));
    assert!(a.sub(b).eq_val(Scalar::new(1, 6)));
    assert!(a.mul(b).eq_val(Scalar::new(1, 6)));
    assert!(a.div(b).eq_val(Scalar::new(3, 2)));
    assert!(a.neg().eq_val(Scalar::new(-1, 2)));
    assert!(Scalar::new(2, 4).eq_val(Scalar::new(1, 2)));
    assert!(!Scalar::new(2, 4).eq_val(Scalar::new(1, 3)));
    assert!(Scalar::from_int(7).eq_val(Scalar::new(7, 1)));
}
