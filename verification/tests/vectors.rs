use gamevecs::{Scalar, Vec2, Vec3};

fn s(v: f32) -> Scalar {
    Scalar::from_bits(v.to_bits())
}

fn v2(x: f32, y: f32) -> Vec2 {
    Vec2::new(s(x), s(y))
}

fn v3(x: f32, y: f32, z: f32) -> Vec3 {
    Vec3::new(s(x), s(y), s(z))
}

#[test]
fn v2_neg() {
    let vec = v2(69.5, -3.);
    let res = v2(-69.5, 3.);
    assert_eq!(res, vec.neg());
}

#[test]
fn v3_neg() {
    let vec = v3(69.5, -3., -4.);
    let res = v3(-69.5, 3., 4.);
    assert_eq!(res, vec.neg());
}

#[test]
fn v2_neg_is_bit_exact() {
    let r = v2(69.5, -3.).neg();
    assert_eq!(r.x.to_bits(), (-69.5f32).to_bits());
    assert_eq!(r.y.to_bits(), 3f32.to_bits());
    let z = v2(0.0, -0.0).neg();
    assert_eq!(z.x.to_bits(), 0x8000_0000);
    assert_eq!(z.y.to_bits(), 0);
}

#[test]
fn v3_neg_is_bit_exact() {
    let r = v3(1.5, -2.25, f32::INFINITY).neg();
    assert_eq!(r.x.to_bits(), (-1.5f32).to_bits());
    assert_eq!(r.y.to_bits(), 2.25f32.to_bits());
    assert_eq!(r.z.to_bits(), f32::NEG_INFINITY.to_bits());
}

#[test]
fn v2_neg_twice_is_identity() {
    let a = v2(69.5, f32::NAN);
    let b = a.neg().neg();
    assert_eq!(a.x.to_bits(), b.x.to_bits());
    assert_eq!(a.y.to_bits(), b.y.to_bits());
}

#[test]
fn v3_neg_twice_is_identity() {
    let a = v3(-0.0, 1e-40, 3.0e38);
    let b = a.neg().neg();
    assert_eq!(a.x.to_bits(), b.x.to_bits());
    assert_eq!(a.y.to_bits(), b.y.to_bits());
    assert_eq!(a.z.to_bits(), b.z.to_bits());
}

#[test]
fn v2_new_keeps_components() {
    let a = v2(3.0, 4.0);
    assert_eq!(a.x.to_bits(), 3f32.to_bits());
    assert_eq!(a.y.to_bits(), 4f32.to_bits());
}

#[test]
fn v3_new_keeps_components() {
    let a = v3(3.0, 4.0, 6.0);
    assert_eq!(a.x.to_bits(), 3f32.to_bits());
    assert_eq!(a.y.to_bits(), 4f32.to_bits());
    assert_eq!(a.z.to_bits(), 6f32.to_bits());
}

#[test]
fn v2_set_overwrites() {
    let mut vec = v2(3.0, 4.0);
    vec.set(s(4.0), s(5.0));
    assert_eq!(v2(4.0, 5.0), vec);
    assert_eq!(vec.x.to_bits(), 4f32.to_bits());
    assert_eq!(vec.y.to_bits(), 5f32.to_bits());
}

#[test]
fn v3_set_overwrites() {
    let mut vec = v3(3.0, 4.0, 6.0);
    vec.set(s(4.0), s(5.0), s(5.0));
    assert_eq!(v3(4.0, 5.0, 5.0), vec);
    assert_eq!(vec.z.to_bits(), 5f32.to_bits());
}

#[test]
fn v2_named_vectors() {
    assert_eq!(Vec2::zero(), v2(0., 0.));
    assert_eq!(Vec2::one(), v2(1., 1.));
    assert_eq!(Vec2::up(), v2(0., 1.));
    assert_eq!(Vec2::down(), v2(0., -1.));
    assert_eq!(Vec2::left(), v2(-1., 0.));
    assert_eq!(Vec2::right(), v2(1., 0.));
    assert_eq!(Vec2::down().y.to_bits(), (-1f32).to_bits());
    assert_eq!(Vec2::zero().x.to_bits(), 0);
}

#[test]
fn v3_named_vectors() {
    assert_eq!(Vec3::zero(), v3(0., 0., 0.));
    assert_eq!(Vec3::one(), v3(1., 1., 1.));
    assert_eq!(Vec3::up(), v3(0., 1., 0.));
    assert_eq!(Vec3::down(), v3(0., -1., 0.));
    assert_eq!(Vec3::left(), v3(-1., 0., 0.));
    assert_eq!(Vec3::right(), v3(1., 0., 0.));
    assert_eq!(Vec3::forward(), v3(0., 0., 1.));
    assert_eq!(Vec3::back(), v3(0., 0., -1.));
    assert_eq!(Vec3::back().z.to_bits(), (-1f32).to_bits());
}

#[test]
fn v2_strict_equality() {
    assert!(v2(1.0, 2.0) == v2(1.0, 2.0));
    assert!(v2(1.0, 2.0) != v2(1.0, 2.5));
    assert!(v2(1.0, 2.0) != v2(1.5, 2.0));
    assert!(v2(0.0, -0.0) == v2(-0.0, 0.0));
    assert!(v2(f32::NAN, 1.0) != v2(f32::NAN, 1.0));
    assert!(v2(1.0, 2.0) != v2(-1.0, 2.0));
}

#[test]
fn v3_strict_equality() {
    assert!(v3(1.0, 2.0, 3.0) == v3(1.0, 2.0, 3.0));
    assert!(v3(1.0, 2.0, 3.0) != v3(1.0, 2.0, 3.5));
    assert!(v3(1.0, 2.0, 3.0) != v3(1.0, -2.0, 3.0));
    assert!(v3(0.0, -0.0, 0.0) == v3(-0.0, 0.0, -0.0));
    assert!(v3(1.0, 1.0, f32::NAN) != v3(1.0, 1.0, f32::NAN));
}

#[test]
fn v2_within_tolerance() {
    let d = v2(3.000001 - 3.0, 4.000001 - 4.0);
    assert!(d.within(s(1e-5)));
    assert!(!v2(0.5, 0.0).within(s(0.5)));
    assert!(v2(-0.25, 0.25).within(s(0.5)));
    assert!(!v2(0.0, -0.75).within(s(0.5)));
    assert!(!v2(0.0, 0.0).within(s(0.0)));
    assert!(!v2(0.0, 0.0).within(s(f32::NAN)));
    assert!(!v2(f32::NAN, 0.0).within(s(1.0)));
    assert!(v2(1e30, -1e30).within(s(f32::INFINITY)));
}

#[test]
fn v3_within_tolerance() {
    let d = v3(3.000001 - 3.0, 4.000001 - 4.0, 5.000001 - 5.0);
    assert!(d.within(s(1e-5)));
    assert!(v3(-0.25, 0.25, -0.125).within(s(0.5)));
    assert!(!v3(0.0, 0.0, 0.5).within(s(0.5)));
    assert!(!v3(0.0, 0.0, f32::NAN).within(s(0.5)));
    assert!(!v3(0.0, 0.0, 0.0).within(s(-1.0)));
}
