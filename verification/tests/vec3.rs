use jord::vec3::{Mat33Bits, Vec3Bits};

fn bits(x: f64, y: f64, z: f64) -> Vec3Bits {
    Vec3Bits::new(x.to_bits(), y.to_bits(), z.to_bits())
}

#[test]
fn same_as_compares_values() {
    assert!(bits(1.0, 2.0, 3.0).same_as(&bits(1.0, 2.0, 3.0)));
    assert!(bits(0.0, -0.0, 3.0).same_as(&bits(-0.0, 0.0, 3.0)));
    assert!(!bits(1.0, 2.0, 3.0).same_as(&bits(1.0, 2.0, 3.5)));
    assert!(!bits(f64::NAN, 2.0, 3.0).same_as(&bits(f64::NAN, 2.0, 3.0)));
}

#[test]
fn zero_vector() {
    assert!(Vec3Bits::zero().is_zero());
    assert!(bits(-0.0, 0.0, -0.0).is_zero());
    assert!(!bits(0.0, 5e-324, 0.0).is_zero());
    assert_eq!(Vec3Bits::zero(), bits(0.0, 0.0, 0.0));
}

#[test]
fn antipode_negates_every_component() {
    let v = bits(1.5, -2.0, 0.25);
    let a = v.antipode();
    assert_eq!(a, bits(-1.5, 2.0, -0.25));
    assert!(a.antipode().same_as(&v));
    assert!(bits(0.0, 0.0, 1.0).antipode().same_as(&bits(0.0, 0.0, -1.0)));
}

#[test]
fn unit_keeps_a_vector_of_norm_one() {
    let v = bits(0.0, 0.6, 0.8);
    let scaled = bits(0.0, 0.6000000000000001, 0.8);
    assert_eq!(v.unit(1.0f64.to_bits(), scaled), v);
    assert_eq!(v.unit(1.0000000000000002f64.to_bits(), scaled), scaled);
    assert_eq!(v.unit(f64::NAN.to_bits(), scaled), scaled);
}

#[test]
fn transpose_swaps_rows_and_columns() {
    let m = Mat33Bits::new(bits(1.0, 2.0, 3.0), bits(4.0, 5.0, 6.0), bits(7.0, 8.0, 9.0));
    let t = m.transpose();
    assert_eq!(t.row0(), bits(1.0, 4.0, 7.0));
    assert_eq!(t.row1(), bits(2.0, 5.0, 8.0));
    assert_eq!(t.row2(), bits(3.0, 6.0, 9.0));
    assert_eq!(t.transpose(), m);
}

#[test]
fn antipode_gives_positive_zeros() {
    let a = bits(0.0, -0.0, 1.0).antipode();
    assert_eq!(a.x, 0.0f64.to_bits());
    assert_eq!(a.y, 0.0f64.to_bits());
    assert_eq!(a.z, (-1.0f64).to_bits());
}

#[test]
fn equality_is_by_value() {
    assert_eq!(bits(0.0, 1.0, 2.0), bits(-0.0, 1.0, 2.0));
    assert_ne!(bits(f64::NAN, 1.0, 2.0), bits(f64::NAN, 1.0, 2.0));
    let m = Mat33Bits::new(bits(1.0, 0.0, 0.0), bits(0.0, 1.0, 0.0), bits(0.0, 0.0, 1.0));
    let n = Mat33Bits::new(bits(1.0, -0.0, 0.0), bits(0.0, 1.0, 0.0), bits(0.0, 0.0, 1.0));
    assert_eq!(m, n);
    let p = Mat33Bits::new(bits(f64::NAN, 0.0, 0.0), bits(0.0, 1.0, 0.0), bits(0.0, 0.0, 1.0));
    assert_ne!(p, p);
}
