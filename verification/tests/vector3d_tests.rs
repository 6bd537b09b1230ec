use linalg3d::vector3d::Vector3D;

#[test]
fn vector3d_test_add() {
    let v1 = Vector3D::new(1.0f32.to_bits(), 2.0f32.to_bits(), 3.0f32.to_bits());
    let v2 = Vector3D::new(4.0f32.to_bits(), 5.0f32.to_bits(), 6.0f32.to_bits());
    let v3 = v1.add(&v2);
    assert_eq!(f32::from_bits(v3.x), 5.0);
    assert_eq!(f32::from_bits(v3.y), 7.0);
    assert_eq!(f32::from_bits(v3.z), 9.0);
}

#[test]
fn vector3d_test_sub() {
    let v1 = Vector3D::new(1.0f32.to_bits(), 2.0f32.to_bits(), 3.0f32.to_bits());
    let v2 = Vector3D::new(4.0f32.to_bits(), 5.0f32.to_bits(), 6.0f32.to_bits());
    let v3 = v1.sub(v2);
    assert_eq!(f32::from_bits(v3.x), -3.0);
    assert_eq!(f32::from_bits(v3.y), -3.0);
    assert_eq!(f32::from_bits(v3.z), -3.0);
}

#[test]
fn test_neg() {
    let v1 = Vector3D::new(1.0f32.to_bits(), 2.0f32.to_bits(), 3.0f32.to_bits());
    let v2 = v1.neg();
    assert_eq!(f32::from_bits(v2.x), -1.0);
    assert_eq!(f32::from_bits(v2.y), -2.0);
    assert_eq!(f32::from_bits(v2.z), -3.0);
}

#[test]
fn vector3d_test_mul() {
    let v1 = Vector3D::new(1.0f32.to_bits(), 2.0f32.to_bits(), 3.0f32.to_bits());
    let v2 = v1.mul(2.0f32.to_bits());
    assert_eq!(f32::from_bits(v2.x), 2.0);
    assert_eq!(f32::from_bits(v2.y), 4.0);
    assert_eq!(f32::from_bits(v2.z), 6.0);
}

#[test]
fn vector3d_test_mul_assign() {
    let mut v1 = Vector3D::new(1.0f32.to_bits(), 2.0f32.to_bits(), 3.0f32.to_bits());
    v1.mul_assign(2.0f32.to_bits());
    assert_eq!(f32::from_bits(v1.x), 2.0);
    assert_eq!(f32::from_bits(v1.y), 4.0);
    assert_eq!(f32::from_bits(v1.z), 6.0);
}

#[test]
fn vector3d_test_div() {
    let v1 = Vector3D::new(1.0f32.to_bits(), 2.0f32.to_bits(), 3.0f32.to_bits());
    let v2 = v1.div(2.0f32.to_bits());
    assert_eq!(f32::from_bits(v2.x), 0.5);
    assert_eq!(f32::from_bits(v2.y), 1.0);
    assert_eq!(f32::from_bits(v2.z), 1.5);
}

#[test]
fn vector3d_test_div_by_zero() {
    let v1 = Vector3D::new(1.0f32.to_bits(), 2.0f32.to_bits(), 3.0f32.to_bits());
    let v2 = v1.div(0.0f32.to_bits());

    // Going by IEEE 754, dividing by zero results in infinity
    assert_eq!(f32::from_bits(v2.x), f32::INFINITY);
    assert_eq!(f32::from_bits(v2.y), f32::INFINITY);
    assert_eq!(f32::from_bits(v2.z), f32::INFINITY);
}

#[test]
fn vector3d_test_div_assign() {
    let mut v1 = Vector3D::new(1.0f32.to_bits(), 2.0f32.to_bits(), 3.0f32.to_bits());
    v1.div_assign(2.0f32.to_bits());
    assert_eq!(f32::from_bits(v1.x), 0.5);
    assert_eq!(f32::from_bits(v1.y), 1.0);
    assert_eq!(f32::from_bits(v1.z), 1.5);
}

#[test]
fn vector3d_test_index() {
    let v = Vector3D::new(1.0f32.to_bits(), 2.0f32.to_bits(), 3.0f32.to_bits());
    assert_eq!(f32::from_bits(v.index(0)), 1.0);
    assert_eq!(f32::from_bits(v.index(1)), 2.0);
    assert_eq!(f32::from_bits(v.index(2)), 3.0);
}

#[test]
fn vector3d_test_index_mut() {
    let mut v = Vector3D::new(1.0f32.to_bits(), 2.0f32.to_bits(), 3.0f32.to_bits());
    v.set(0, 4.0f32.to_bits());
    assert_eq!(f32::from_bits(v.index(0)), 4.0);
}

#[test]
fn vector3d_test_operator_chaining() {
    let v1 = Vector3D::new(1.0f32.to_bits(), 2.0f32.to_bits(), 3.0f32.to_bits());
    let v2 = Vector3D::new(4.0f32.to_bits(), 5.0f32.to_bits(), 6.0f32.to_bits());
    let v3 = v1.add(&v2);
    let v4 = v3.mul(2.0f32.to_bits());
    assert_eq!(f32::from_bits(v4.x), 10.0);
    assert_eq!(f32::from_bits(v4.y), 14.0);
    assert_eq!(f32::from_bits(v4.z), 18.0);

    let v5 = v1.add(&v2).mul(2.0f32.to_bits());
    assert_eq!(v5, v4);
}

#[test]
fn test_magnitude() {
    let v1 = Vector3D::new(1.0f32.to_bits(), 2.0f32.to_bits(), 3.0f32.to_bits());
    assert_eq!(f32::from_bits(v1.magnitude()), 3.7416575);

    let v2 = Vector3D::new(0.0f32.to_bits(), 0.0f32.to_bits(), 0.0f32.to_bits());
    assert_eq!(f32::from_bits(v2.magnitude()), 0.0);

    let v3 = Vector3D::new(1.0f32.to_bits(), 1.0f32.to_bits(), 1.0f32.to_bits());
    assert_eq!(f32::from_bits(v3.magnitude()), 1.7320508);
}

#[test]
fn test_normalize() {
    let v1 = Vector3D::new(1.0f32.to_bits(), 2.0f32.to_bits(), 3.0f32.to_bits());
    let v2 = Vector3D::new(
        0.26726124f32.to_bits(),
        0.5345225f32.to_bits(),
        0.8017837f32.to_bits(),
    );
    assert_eq!(v1.normalize(), v2);
}

#[test]
fn add_then_sub_recovers_fixture() {
    let a = Vector3D::new(1.0f32.to_bits(), 2.0f32.to_bits(), 3.0f32.to_bits());
    let b = Vector3D::new(4.0f32.to_bits(), 5.0f32.to_bits(), 6.0f32.to_bits());
    let r = a.add(&b).sub(b);
    assert_eq!(r, a);
}

#[test]
fn neg_twice_restores_fixture() {
    let v = Vector3D::new(1.0f32.to_bits(), (-2.0f32).to_bits(), 3.0f32.to_bits());
    assert_eq!(v.neg().neg(), v);
}

#[test]
fn mul_then_div_recovers_fixture() {
    let v = Vector3D::new(1.0f32.to_bits(), 2.0f32.to_bits(), 3.0f32.to_bits());
    let s = 2.0f32.to_bits();
    let r = v.mul(s).div(s);
    assert_eq!(r, v);
}

#[test]
fn normalize_of_zero_vector_is_nan() {
    let v = Vector3D::new(0.0f32.to_bits(), 0.0f32.to_bits(), 0.0f32.to_bits());
    let n = v.normalize();
    assert!(f32::from_bits(n.x).is_nan());
    assert!(f32::from_bits(n.y).is_nan());
    assert!(f32::from_bits(n.z).is_nan());
}
