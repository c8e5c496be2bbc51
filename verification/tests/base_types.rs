use nalgebra::{Vector2, Vector3};
use rustcraft::base::math::{vec2_to_vec3, vec3_to_vec2, Veci};
use rustcraft::base::types::{i64max, PosScalar, SizeScalar, POS_ABS_MAX};

#[test]
fn it_works() {
    assert_eq!(2 + 2, 4);
}

#[test]
fn i64max_returns_the_larger_argument() {
    assert_eq!(i64max(3, 7), 7);
    assert_eq!(i64max(7, 3), 7);
    assert_eq!(i64max(-5, -9), -5);
}

#[test]
fn i64max_of_equal_arguments_is_that_value() {
    assert_eq!(i64max(4, 4), 4);
    assert_eq!(i64max(i64::MIN, i64::MIN), i64::MIN);
}

#[test]
fn i64max_at_the_ends_of_the_range() {
    assert_eq!(i64max(i64::MIN, i64::MAX), i64::MAX);
    assert_eq!(i64max(i64::MAX, i64::MIN), i64::MAX);
}

#[test]
fn pos_abs_max_is_the_magnitude_of_the_lowest_position() {
    assert_eq!(POS_ABS_MAX, 2147483648);
    assert_eq!(POS_ABS_MAX as i64, -(PosScalar::MIN as i64));
    assert_eq!(
        POS_ABS_MAX as i64,
        i64max((PosScalar::MAX as i64).abs(), (PosScalar::MIN as i64).abs())
    );
}

#[test]
fn pos_abs_max_fits_in_a_size_scalar() {
    assert!(POS_ABS_MAX <= SizeScalar::MAX as usize);
}

#[test]
fn vec2_to_vec3_appends_the_third_component() {
    let v3 = vec2_to_vec3(Vector2::new(1, -2), 3);
    assert_eq!(v3, Vector3::new(1, -2, 3));
    assert_eq!((v3.x, v3.y, v3.z), (1, -2, 3));
}

#[test]
fn vec2_to_vec3_keeps_the_order_of_x_and_y() {
    let v3 = vec2_to_vec3(Vector2::new(PosScalar::MIN, PosScalar::MAX), 0);
    assert_eq!(v3, Vector3::new(PosScalar::MIN, PosScalar::MAX, 0));
}

#[test]
fn vec3_to_vec2_drops_the_third_component() {
    let v2 = vec3_to_vec2(Vector3::new(4, 5, 6));
    assert_eq!(v2, Vector2::new(4, 5));
    assert_eq!((v2.x, v2.y), (4, 5));
}

#[test]
fn vec3_to_vec2_undoes_vec2_to_vec3() {
    let v2 = Vector2::new(-7, 11);
    assert_eq!(vec3_to_vec2(vec2_to_vec3(v2, 99)), v2);
}

#[test]
fn veci_zero_is_the_origin() {
    let v = Veci::zero();
    assert_eq!((v.x(), v.y(), v.z()), (0, 0, 0));
}

#[test]
fn veci_new_keeps_each_coordinate() {
    let v = Veci::new(1, -2, 3);
    assert_eq!((v.x(), v.y(), v.z()), (1, -2, 3));
    let w = Veci::new(i32::MIN, 0, i32::MAX);
    assert_eq!((w.x(), w.y(), w.z()), (i32::MIN, 0, i32::MAX));
}
