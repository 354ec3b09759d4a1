//! Tests for the canonical polar vector type.

use spatial_frames::constants::{WORLD_ORIGIN_X, WORLD_ORIGIN_Y, WORLD_ORIGIN_Z};
use spatial_frames::polar_vector::PolarVec;
use std::cmp::Ordering;

#[test]
fn test_new_vec() {
    let a = PolarVec::new(0, 1, 1);
    let b = PolarVec::new(0, 0, 0);
    assert_eq!(a, b);

    let a = PolarVec::new(5, 1, 0);
    let b = PolarVec::new(5, 0, 0);
    assert_eq!(a, b);

    let a = PolarVec::new(5, 1, 1);
    let b = PolarVec::new(5, 361, 1);
    assert_eq!(a, b);

    let a = PolarVec::new(5, 1, -1);
    let b = PolarVec::new(5, 1, 179);
    assert_eq!(a, b);

    let a = PolarVec::new(5, 1, 181);
    let b = PolarVec::new(5, 1, 1);
    assert_eq!(a, b);

    let a = PolarVec::new(-5, 180, 90);
    let b = PolarVec::new(5, 0, 90);
    assert_eq!(a, b);

    let a = PolarVec::new(-5, 200, 45);
    let b = PolarVec::new(5, 20, 135);
    assert_eq!(a, b);
}

#[test]
fn test_partial_eq() {
    let a = PolarVec::new(1, 1, 1);
    let b = PolarVec::new(1, 1, 1);
    let c = PolarVec::new(2, 1, 1);
    assert_eq!(a, b);
    assert_ne!(a, c);
}

#[test]
fn test_total_ordering() {
    let a = PolarVec::new(1, 1, 1);
    let b = PolarVec::new(1, 1, 1);
    let c = PolarVec::new(1, 2, 1);
    let d = PolarVec::new(1, 2, 2);
    let e = PolarVec::new(2, 2, 2);

    assert_eq!(Ordering::Equal, a.cmp(&b));
    assert_eq!(Ordering::Less, b.cmp(&c));
    assert_eq!(Ordering::Less, c.cmp(&d));
    assert_eq!(Ordering::Less, d.cmp(&e));
    assert_eq!(Ordering::Greater, e.cmp(&a));
    assert_eq!(Ordering::Greater, d.cmp(&a));
    assert_eq!(Ordering::Greater, c.cmp(&a));
}

#[test]
fn test_partial_ordering() {
    let a = PolarVec::new(1, 1, 1);
    let b = PolarVec::new(1, 1, 1);
    let c = PolarVec::new(1, 2, 1);
    let d = PolarVec::new(1, 2, 2);
    let e = PolarVec::new(2, 2, 2);

    assert_eq!(Ordering::Equal, a.partial_cmp(&b).unwrap());
    assert_eq!(Ordering::Less, b.partial_cmp(&c).unwrap());
    assert_eq!(Ordering::Less, c.partial_cmp(&d).unwrap());
    assert_eq!(Ordering::Less, d.partial_cmp(&e).unwrap());
    assert_eq!(Ordering::Greater, e.partial_cmp(&a).unwrap());
    assert_eq!(Ordering::Greater, d.partial_cmp(&a).unwrap());
    assert_eq!(Ordering::Greater, c.partial_cmp(&a).unwrap());
}

#[test]
fn test_debug() {
    let a = PolarVec::new(1, 1, 1);
    println!("{:?}", a)
}

#[test]
fn polar_vector_test_new_vec() {
    let a = PolarVec::new(0, 1, 1);
    let b = PolarVec::new(0, 0, 0);
    assert_eq!(a, b);

    let a = PolarVec::new(5, 1, 0);
    let b = PolarVec::new(5, 0, 0);
    assert_eq!(a, b);

    let a = PolarVec::new(5, 1, 1);
    let b = PolarVec::new(5, 361, 1);
    assert_eq!(a, b);

    let a = PolarVec::new(5, 360, 1);
    let b = PolarVec::new(5, 0, 1);
    assert_eq!(a, b);

    let a = PolarVec::new(5, 1, 180);
    let b = PolarVec::new(5, 1, 0);
    assert_eq!(a, b);

    let a = PolarVec::new(5, 1, -1);
    let b = PolarVec::new(5, 1, 179);
    assert_eq!(a, b);

    let a = PolarVec::new(5, 1, 181);
    let b = PolarVec::new(5, 1, 1);
    assert_eq!(a, b);

    let a = PolarVec::new(-5, 180, 90);
    let b = PolarVec::new(5, 0, 90);
    assert_eq!(a, b);

    let a = PolarVec::new(-5, 200, 45);
    let b = PolarVec::new(5, 20, 135);
    assert_eq!(a, b);
}

#[test]
fn polar_vector_get_world_origin() {
    let a = PolarVec::get_world_origin();
    assert_eq!(WORLD_ORIGIN_X, a.get_radius_in_m());
    assert_eq!(WORLD_ORIGIN_Y, a.get_phi_in_deg());
    assert_eq!(WORLD_ORIGIN_Z, a.get_theta_in_deg());
}

#[test]
fn polar_vector_get_field() {
    let a = PolarVec::new(1, 1, 1);
    assert_eq!(1, a.get_radius_in_m());
    assert_eq!(1, a.get_phi_in_deg());
    assert_eq!(1, a.get_theta_in_deg());

    assert_eq!(1, a.get_radius_in_m());
    assert_eq!(1, a.get_phi_in_deg());
    assert_eq!(1, a.get_theta_in_deg());
}

#[test]
fn polar_vector_get_angle_difference() {
    let a = PolarVec::new(1, 20, 10);
    let b = PolarVec::new(1, 40, 160);

    assert_eq!(-20, b.get_angle_difference_phi(&a));
    assert_eq!(20, a.get_angle_difference_phi(&b));
    assert_eq!(150, a.get_angle_difference_theta(&b));
    assert_eq!(-150, b.get_angle_difference_theta(&a));
}

#[test]
fn polar_vector_test_partial_eq() {
    let a = PolarVec::new(1, 1, 1);
    let b = PolarVec::new(1, 1, 1);
    let c = PolarVec::new(2, 1, 1);
    assert_eq!(a, b);
    assert_ne!(a, c);
}

#[test]
fn polar_vector_test_total_ordering() {
    let a = PolarVec::new(1, 1, 1);
    let b = PolarVec::new(1, 1, 1);
    let c = PolarVec::new(1, 2, 1);
    let d = PolarVec::new(1, 2, 2);
    let e = PolarVec::new(2, 2, 2);

    assert_eq!(Ordering::Equal, a.cmp(&b));
    assert_eq!(Ordering::Less, b.cmp(&c));
    assert_eq!(Ordering::Less, c.cmp(&d));
    assert_eq!(Ordering::Less, d.cmp(&e));
    assert_eq!(Ordering::Greater, e.cmp(&a));
    assert_eq!(Ordering::Greater, d.cmp(&a));
    assert_eq!(Ordering::Greater, c.cmp(&a));
}

#[test]
fn polar_vector_test_partial_ordering() {
    let a = PolarVec::new(1, 1, 1);
    let b = PolarVec::new(1, 1, 1);
    let c = PolarVec::new(1, 2, 1);
    let d = PolarVec::new(1, 2, 2);
    let e = PolarVec::new(2, 2, 2);

    assert_eq!(Ordering::Equal, a.partial_cmp(&b).unwrap());
    assert_eq!(Ordering::Less, b.partial_cmp(&c).unwrap());
    assert_eq!(Ordering::Less, c.partial_cmp(&d).unwrap());
    assert_eq!(Ordering::Less, d.partial_cmp(&e).unwrap());
    assert_eq!(Ordering::Greater, e.partial_cmp(&a).unwrap());
    assert_eq!(Ordering::Greater, d.partial_cmp(&a).unwrap());
    assert_eq!(Ordering::Greater, c.partial_cmp(&a).unwrap());
}

#[test]
fn polar_vector_test_debug() {
    let a = PolarVec::new(1, 1, 1);
    println!("{:?}", a)
}

#[test]
fn vectors_get_angle_difference() {
    let a = PolarVec::new(1, 20, 10);
    let b = PolarVec::new(1, 40, 160);

    assert_eq!(-20, b.get_angle_difference_phi(&a));
    assert_eq!(20, a.get_angle_difference_phi(&b));
    assert_eq!(150, a.get_angle_difference_theta(&b));
    assert_eq!(-150, b.get_angle_difference_theta(&a));
}

#[test]
fn vectors_test_partial_eq() {
    let a = PolarVec::new(1, 1, 1);
    let b = PolarVec::new(1, 1, 1);
    let c = PolarVec::new(2, 1, 1);
    assert_eq!(a, b);
    assert_ne!(a, c);
}

#[test]
fn vectors_test_total_ordering() {
    let a = PolarVec::new(1, 1, 1);
    let b = PolarVec::new(1, 1, 1);
    let c = PolarVec::new(1, 2, 1);
    let d = PolarVec::new(1, 2, 2);
    let e = PolarVec::new(2, 2, 2);

    assert_eq!(Ordering::Equal, a.cmp(&b));
    assert_eq!(Ordering::Less, b.cmp(&c));
    assert_eq!(Ordering::Less, c.cmp(&d));
    assert_eq!(Ordering::Less, d.cmp(&e));
    assert_eq!(Ordering::Greater, e.cmp(&a));
    assert_eq!(Ordering::Greater, d.cmp(&a));
    assert_eq!(Ordering::Greater, c.cmp(&a));
}

#[test]
fn vectors_test_partial_ordering() {
    let a = PolarVec::new(1, 1, 1);
    let b = PolarVec::new(1, 1, 1);
    let c = PolarVec::new(1, 2, 1);
    let d = PolarVec::new(1, 2, 2);
    let e = PolarVec::new(2, 2, 2);

    assert_eq!(Ordering::Equal, a.partial_cmp(&b).unwrap());
    assert_eq!(Ordering::Less, b.partial_cmp(&c).unwrap());
    assert_eq!(Ordering::Less, c.partial_cmp(&d).unwrap());
    assert_eq!(Ordering::Less, d.partial_cmp(&e).unwrap());
    assert_eq!(Ordering::Greater, e.partial_cmp(&a).unwrap());
    assert_eq!(Ordering::Greater, d.partial_cmp(&a).unwrap());
    assert_eq!(Ordering::Greater, c.partial_cmp(&a).unwrap());
}

#[test]
fn vectors_test_debug() {
    let a = PolarVec::new(1, 1, 1);
    println!("{:?}", a)
}

#[test]
fn pole_collapse_phi() {
    let north = PolarVec::new(5, 123, 0);
    assert_eq!(0, north.get_phi_in_deg());
    assert_eq!(0, north.get_theta_in_deg());

    let folded = PolarVec::new(5, 77, 180);
    assert_eq!(0, folded.get_phi_in_deg());
    assert_eq!(0, folded.get_theta_in_deg());

    assert_eq!(north, folded);
    assert_eq!(north, PolarVec::new(5, 0, 0));
}

#[test]
fn zero_collapse() {
    assert_eq!(PolarVec::new(0, 123, 77), PolarVec::new(0, 0, 0));
    assert_eq!(0, PolarVec::new(0, 123, 77).get_phi_in_deg());
    assert_eq!(0, PolarVec::new(0, 123, 77).get_theta_in_deg());
}

#[test]
fn negative_radius_reflection() {
    assert_eq!(PolarVec::new(-5, 180, 90), PolarVec::new(5, 0, 90));
    assert_eq!(PolarVec::new(-5, 200, 45), PolarVec::new(5, 20, 135));
    let r = PolarVec::new(-7, 10, 20);
    assert_eq!(7, r.get_radius_in_m());
    assert_eq!(190, r.get_phi_in_deg());
    assert_eq!(160, r.get_theta_in_deg());
}

#[test]
fn negative_polar_axis_form() {
    let down = PolarVec::new(-5, 0, 0);
    assert_eq!(5, down.get_radius_in_m());
    assert_eq!(180, down.get_phi_in_deg());
    assert_eq!(180, down.get_theta_in_deg());
}

#[test]
fn canonicalization_idempotent() {
    let c = PolarVec::new(5, 725, 190);
    assert_eq!(5, c.get_radius_in_m());
    assert_eq!(5, c.get_phi_in_deg());
    assert_eq!(10, c.get_theta_in_deg());
    let again = PolarVec::new(c.get_radius_in_m(), c.get_phi_in_deg(), c.get_theta_in_deg());
    assert_eq!(c, again);
}

#[test]
fn azimuth_period() {
    assert_eq!(PolarVec::new(5, 10 + 720, 20), PolarVec::new(5, 10, 20));
    assert_eq!(PolarVec::new(5, 10 - 360, 20), PolarVec::new(5, 10, 20));
    assert_eq!(PolarVec::new(5, 10, 20 + 360), PolarVec::new(5, 10, 20));
}

#[test]
fn extreme_components() {
    let big = PolarVec::new(i64::MAX, -359, -179);
    assert_eq!(i64::MAX, big.get_radius_in_m());
    assert_eq!(1, big.get_phi_in_deg());
    assert_eq!(1, big.get_theta_in_deg());
}
