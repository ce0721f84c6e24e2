use quaternion_rs::Quaternion;
use quaternion_rs::Vector3;

fn q(w: f64, i: f64, j: f64, k: f64) -> Quaternion {
    Quaternion::new(w.to_bits(), i.to_bits(), j.to_bits(), k.to_bits())
}

fn fb(b: u64) -> f64 {
    f64::from_bits(b)
}

#[test]
fn test_default_quaternion() {
    let q = Quaternion::default();
    assert_eq!(fb(q.w), 1.0);
    assert_eq!(fb(q.i), 0.0);
    assert_eq!(fb(q.j), 0.0);
    assert_eq!(fb(q.k), 0.0);
}

#[test]
fn test_from_axis_angle() {
    let axis = Vector3(1.0f64.to_bits(), 0.0f64.to_bits(), 0.0f64.to_bits()); // Rotation around x-axis
    let angle = std::f64::consts::PI; // 180 degrees
    let q = Quaternion::from_axis_angle(&axis, angle.to_bits());
    assert!((fb(q.w) - 0.0).abs() < 1e-6); // w should be 0
    assert!((fb(q.i) - 1.0).abs() < 1e-6); // i should be 1
}

#[test]
fn test_addition() {
    let q1 = q(1.0, 1.0, 1.0, 1.0);
    let q2 = q(2.0, 2.0, 2.0, 2.0);
    let result = Quaternion::add(&q1, &q2);
    assert_eq!(fb(result.w), 3.0);
    assert_eq!(fb(result.i), 3.0);
    assert_eq!(fb(result.j), 3.0);
    assert_eq!(fb(result.k), 3.0);
}

#[test]
fn test_subtraction() {
    let q1 = q(2.0, 2.0, 2.0, 2.0);
    let q2 = q(1.0, 1.0, 1.0, 1.0);
    let result = Quaternion::subtract(&q1, &q2);
    assert_eq!(fb(result.w), 1.0);
    assert_eq!(fb(result.i), 1.0);
    assert_eq!(fb(result.j), 1.0);
    assert_eq!(fb(result.k), 1.0);
}

#[test]
fn test_conjugate() {
    let q = q(1.0, -2.0, 3.0, -4.0);
    let conj = q.conjugate();
    assert_eq!(fb(conj.w), 1.0);
    assert_eq!(fb(conj.i), 2.0);
    assert_eq!(fb(conj.j), -3.0);
    assert_eq!(fb(conj.k), 4.0);
}

#[test]
fn conjugate_twice_restores() {
    let x = q(1.0, -2.0, 3.0, -4.0);
    assert_eq!(x.conjugate().conjugate(), x);
    let y = q(0.0, -0.0, 1.5e300, -2.5e-300);
    assert_eq!(y.conjugate().conjugate(), y);
}

#[test]
fn scalar_product_matches_squared_norm() {
    let x = q(1.0, 2.0, 3.0, 4.0);
    let dot = fb(Quaternion::scalar_product(&x, &x));
    let n = fb(x.abs());
    assert!((dot - n * n).abs() < 1e-9);
}

#[test]
fn scalar_product_fixture() {
    let q1 = q(1.0, 2.0, 3.0, 4.0);
    let q2 = q(5.0, 6.0, 7.0, 8.0);
    assert_eq!(fb(Quaternion::scalar_product(&q1, &q2)), 70.0);
}

#[test]
fn multiply_reference_fixture() {
    let q1 = q(1.0, 2.0, 3.0, 4.0);
    let q2 = q(5.0, 6.0, 7.0, 8.0);
    let r = Quaternion::multiply(&q1, &q2);
    assert_eq!(fb(r.w), -60.0);
    assert_eq!(fb(r.i), 12.0);
    assert_eq!(fb(r.j), 30.0);
    assert_eq!(fb(r.k), 24.0);
}

#[test]
fn multiply_is_non_commutative() {
    let q1 = q(1.0, 2.0, 3.0, 4.0);
    let q2 = q(5.0, 6.0, 7.0, 8.0);
    let a = Quaternion::multiply(&q1, &q2);
    let b = Quaternion::multiply(&q2, &q1);
    assert_ne!(a, b);
}

#[test]
fn outer_and_cross_coincide_with_multiply() {
    let q1 = q(1.0, 2.0, 3.0, 4.0);
    let q2 = q(5.0, 6.0, 7.0, 8.0);
    let m = Quaternion::multiply(&q1, &q2);
    assert_eq!(Quaternion::outer_product(&q1, &q2), m);
    assert_eq!(Quaternion::cross_product(&q1, &q2), m);
}

#[test]
fn even_product_fixture() {
    let q1 = q(1.0, 2.0, 3.0, 4.0);
    let q2 = q(5.0, 6.0, 7.0, 8.0);
    let r = Quaternion::even_product(&q1, &q2);
    assert_eq!(fb(r.w), -60.0);
    assert_eq!(fb(r.i), 20.0);
    assert_eq!(fb(r.j), 14.0);
    assert_eq!(fb(r.k), 32.0);
}

#[test]
fn divide_by_identity_leaves_operand() {
    let q1 = q(1.0, 2.0, 3.0, 4.0);
    let r = Quaternion::divide(&q1, &Quaternion::default());
    assert_eq!(fb(r.w), 1.0);
    assert_eq!(fb(r.i), 2.0);
    assert_eq!(fb(r.j), 3.0);
    assert_eq!(fb(r.k), 4.0);
}

#[test]
fn divide_multiplies_by_conjugate() {
    let q1 = q(1.0, 2.0, 3.0, 4.0);
    let q2 = q(5.0, 6.0, 7.0, 8.0);
    let r = Quaternion::divide(&q1, &q2);
    assert_eq!(r, Quaternion::multiply(&q1, &q2.conjugate()));
    assert_eq!(fb(r.w), 70.0);
    assert_eq!(fb(r.i), 8.0);
    assert_eq!(fb(r.j), 0.0);
    assert_eq!(fb(r.k), 16.0);
}

#[test]
fn abs_fixture() {
    let x = q(1.0, 2.0, 3.0, 4.0);
    assert_eq!(fb(x.abs()), 30.0f64.sqrt());
}

#[test]
fn sgn_scales_to_unit_norm() {
    let x = q(2.0, 0.0, 0.0, 0.0);
    let s = x.sgn();
    assert_eq!(fb(s.w), 1.0);
    assert_eq!(fb(s.i), 0.0);
    assert_eq!(fb(s.j), 0.0);
    assert_eq!(fb(s.k), 0.0);
}

#[test]
fn sgn_of_zero_norm_is_all_nan() {
    let z = q(0.0, 0.0, 0.0, 0.0);
    let s = z.sgn();
    assert!(fb(s.w).is_nan());
    assert!(fb(s.i).is_nan());
    assert!(fb(s.j).is_nan());
    assert!(fb(s.k).is_nan());
}

#[test]
fn inverse_fixture() {
    let x = q(2.0, 0.0, 0.0, 0.0);
    let inv = x.inverse();
    assert_eq!(fb(inv.w), 0.5);
    assert_eq!(fb(inv.i), 0.0);
    assert_eq!(fb(inv.j), 0.0);
    assert_eq!(fb(inv.k), 0.0);
}

#[test]
fn arg_cosine_of_real_quaternion_is_one() {
    let x = q(2.0, 0.0, 0.0, 0.0);
    assert_eq!(fb(x.arg_cosine()), 1.0);
    assert_eq!(fb(x.arg_cosine()).acos(), 0.0);
}

#[test]
fn default_equals_unit_quaternion() {
    let d = Quaternion::default();
    assert_eq!(d, q(1.0, 0.0, 0.0, 0.0));
}

#[test]
fn from_axis_angle_half_turn_about_x() {
    let axis = Vector3(1.0f64.to_bits(), 0.0f64.to_bits(), 0.0f64.to_bits());
    let r = Quaternion::from_axis_angle(&axis, std::f64::consts::PI.to_bits());
    assert!((fb(r.w) - 0.0).abs() < 1e-6);
    assert!((fb(r.i) - 1.0).abs() < 1e-6);
    assert!((fb(r.j) - 0.0).abs() < 1e-6);
    assert!((fb(r.k) - 0.0).abs() < 1e-6);
}

#[test]
fn to_vector3_drops_scalar_part() {
    let x = q(1.0, 2.0, 3.0, 4.0);
    let v = x.to_vector3();
    assert_eq!(fb(v.0), 2.0);
    assert_eq!(fb(v.1), 3.0);
    assert_eq!(fb(v.2), 4.0);
}

#[test]
fn multiply_vector_fixture() {
    let x = q(1.0, 2.0, 3.0, 4.0);
    let v = Vector3(1.0f64.to_bits(), 0.0f64.to_bits(), 0.0f64.to_bits());
    let r = x.multiply_vector(&v);
    assert_eq!(fb(r.0), 1.0);
    assert_eq!(fb(r.1), 4.0);
    assert_eq!(fb(r.2), -3.0);
}

#[test]
fn rotate_vector_half_turn_about_x() {
    let x = q(0.0, 1.0, 0.0, 0.0);
    let v = Vector3(1.0f64.to_bits(), 0.0f64.to_bits(), 0.0f64.to_bits());
    let r = x.rotate_vector(&v);
    assert_eq!(fb(r.0), -1.0);
    assert_eq!(fb(r.1), 0.0);
    assert_eq!(fb(r.2), 0.0);
}

#[test]
fn euler_angle_arguments_of_identity() {
    let a = Quaternion::default().euler_angle_arguments();
    assert_eq!(fb(a.roll_y), 0.0);
    assert_eq!(fb(a.roll_x), 1.0);
    assert_eq!(fb(a.pitch_sine), 0.0);
    assert_eq!(fb(a.yaw_y), 0.0);
    assert_eq!(fb(a.yaw_x), 1.0);
    let roll = f64::atan2(fb(a.roll_y), fb(a.roll_x));
    let pitch = f64::asin(fb(a.pitch_sine));
    let yaw = f64::atan2(fb(a.yaw_y), fb(a.yaw_x));
    assert_eq!((roll, pitch, yaw), (0.0, 0.0, 0.0));
}

#[test]
fn euler_angle_arguments_quarter_turn_about_z() {
    let axis = Vector3(0.0f64.to_bits(), 0.0f64.to_bits(), 1.0f64.to_bits());
    let half_pi = std::f64::consts::FRAC_PI_2;
    let x = Quaternion::from_axis_angle(&axis, half_pi.to_bits());
    let a = x.euler_angle_arguments();
    let yaw = f64::atan2(fb(a.yaw_y), fb(a.yaw_x));
    assert!((yaw - half_pi).abs() < 1e-6);
    let roll = f64::atan2(fb(a.roll_y), fb(a.roll_x));
    let pitch = f64::asin(fb(a.pitch_sine));
    assert!(roll.abs() < 1e-6);
    assert!(pitch.abs() < 1e-6);
}

#[test]
fn display_positive_components() {
    let x = q(1.0, 2.0, 3.0, 4.0);
    let m = x.component_magnitudes();
    let s = x.compose_display(
        &format!("{}", fb(x.w)),
        &format!("{}", fb(m.0)),
        &format!("{}", fb(m.1)),
        &format!("{}", fb(m.2)),
    );
    assert_eq!(s, "1+2i+3j+4k");
}

#[test]
fn display_mixed_signs() {
    let x = q(1.0, -2.0, 3.0, -4.0);
    let m = x.component_magnitudes();
    let s = x.compose_display(
        &format!("{}", fb(x.w)),
        &format!("{}", fb(m.0)),
        &format!("{}", fb(m.1)),
        &format!("{}", fb(m.2)),
    );
    assert_eq!(s, "1-2i+3j-4k");
}

#[test]
fn display_negative_scalar_part() {
    let x = q(-1.5, 0.0, -0.0, 2.0);
    let m = x.component_magnitudes();
    let s = x.compose_display(
        &format!("{}", fb(x.w)),
        &format!("{}", fb(m.0)),
        &format!("{}", fb(m.1)),
        &format!("{}", fb(m.2)),
    );
    assert_eq!(s, "-1.5+0i+0j+2k");
}

#[test]
fn display_of_zero_norm_signum() {
    let s = q(0.0, 0.0, 0.0, 0.0).sgn();
    let m = s.component_magnitudes();
    let text = s.compose_display(
        &format!("{}", fb(s.w)),
        &format!("{}", fb(m.0)),
        &format!("{}", fb(m.1)),
        &format!("{}", fb(m.2)),
    );
    assert_eq!(text, "NaN-NaNi-NaNj-NaNk");
}

#[test]
fn new_stores_components_exactly() {
    let x = Quaternion::new(1.5f64.to_bits(), (-2.5f64).to_bits(), 0.0f64.to_bits(), (-0.0f64).to_bits());
    assert_eq!(fb(x.w), 1.5);
    assert_eq!(fb(x.i), -2.5);
    assert_eq!(fb(x.j), 0.0);
    assert!(fb(x.k).is_sign_negative() && fb(x.k) == 0.0);
}
