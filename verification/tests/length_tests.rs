use core::marker::PhantomData;

use length_units::length::{circumference, Length, PI_DENOMINATOR, PI_NUMERATOR};
use length_units::units::{Kilometers, LengthUnit, Meters, Millimeters};

/// The numeric value of a length read back in its own unit, as the
/// display layer computes it: a lossy floating-point extraction.
fn to_number<U: LengthUnit>(l: &Length<U>) -> f64 {
    l.magnitude_nm() as f64 / U::num_nm_in_unit() as f64
}

/// The display form: `"<value> <name><plural s>"`, with the `s` dropped
/// exactly when the value is 1.0.
fn render<U: LengthUnit>(l: &Length<U>) -> String {
    let value = to_number(l);
    let suffix = if value == 1.0 { "" } else { "s" };
    format!("{} {}{}", value, U::singular_name(), suffix)
}

#[test]
fn round_trip_millimeters() {
    let l = Length::<Millimeters>::from_number(10);
    assert_eq!(to_number(&l), 10.0);
}

#[test]
fn round_trip_meters_negative() {
    let l = Length::<Meters>::from_number(-37);
    assert_eq!(to_number(&l), -37.0);
}

#[test]
fn round_trip_kilometers() {
    let l = Length::<Kilometers>::from_number(123);
    assert_eq!(to_number(&l), 123.0);
}

#[test]
fn comparison_ignores_unit_tags() {
    let meter = Length::<Meters>::from_number(1);
    let thousand_mm = Length::<Millimeters>::from_number(1000);
    assert!(meter == thousand_mm);
    assert!(thousand_mm == meter);
    let km = Length::<Kilometers> { nm: 5_000_000_000, unit: PhantomData };
    let m = Length::<Meters> { nm: 5_000_000_000, unit: PhantomData };
    assert!(km == m);
    assert!(!(km < m) && !(km > m));
}

#[test]
fn addition_physical_value_commutes() {
    let a = Length::<Millimeters>::from_number(42);
    let b = Length::<Meters>::from_number(7);
    let left = a + b;
    let right = b + a;
    assert_eq!(left.magnitude_nm(), right.magnitude_nm());
    assert_eq!(left.magnitude_nm(), 42_000_000 + 7_000_000_000);
}

#[test]
fn division_identity() {
    let l = Length::<Meters>::from_number(17);
    let ratio = l.magnitude_nm() as f64 / l.magnitude_nm() as f64;
    assert_eq!(ratio, 1.0);
}

#[test]
fn zero_size_unit_tag() {
    assert_eq!(std::mem::size_of::<Length<Meters>>(), 8);
    assert_eq!(std::mem::size_of::<Length<Millimeters>>(), 8);
    assert_eq!(std::mem::size_of::<Length<Kilometers>>(), 8);
    assert_eq!(std::mem::size_of::<Length<Meters>>(), std::mem::size_of::<i64>());
}

#[test]
fn scenario_formatting_and_combination() {
    let l1 = Length::<Millimeters>::from_number(10);
    let l2 = Length::<Meters>::from_number(5);
    assert_eq!(render(&l1), "10 millimeters");
    assert_eq!(render(&l2), "5 meters");
    let l3 = (l1 * 5) + l2;
    assert_eq!(l3.magnitude_nm(), 5_050_000_000);
    assert_eq!(render(&l3), "5050 millimeters");
}

#[test]
fn scenario_conversion_to_meters() {
    let l1 = Length::<Millimeters>::from_number(10);
    let l2 = Length::<Meters>::from_number(5);
    let l3 = (l1 * 5) + l2;
    let in_meters: Length<Meters> = l3.relabel();
    assert_eq!(in_meters.magnitude_nm(), l3.magnitude_nm());
    assert_eq!(to_number(&in_meters), 5.05);
}

#[test]
fn scenario_circumference() {
    let radius = Length::<Millimeters>::from_number(10);
    let c = circumference(radius);
    assert_eq!(c.magnitude_nm(), 62_831_853);
    assert_eq!(render(&c), "62.831853 millimeters");
}

#[test]
fn scenario_compare_and_divide() {
    let l1 = Length::<Millimeters>::from_number(10);
    let l2 = Length::<Meters>::from_number(5);
    let l3 = (l1 * 5) + l2;
    assert!(l3 > l2);
    assert!(l2 < l3);
    let ratio = l3.magnitude_nm() as f64 / l2.magnitude_nm() as f64;
    assert_eq!(ratio, 1.01);
}

#[test]
fn singular_display_name() {
    let one_meter = Length::<Meters>::from_number(1);
    assert_eq!(render(&one_meter), "1 meter");
}

#[test]
fn unit_descriptor_scales() {
    assert_eq!(Meters::num_nm_in_unit(), 1_000_000_000);
    assert_eq!(Millimeters::num_nm_in_unit(), 1_000_000);
    assert_eq!(Kilometers::num_nm_in_unit(), 1_000_000_000_000);
    assert_eq!(Meters::singular_name(), "meter");
    assert_eq!(Millimeters::singular_name(), "millimeter");
    assert_eq!(Kilometers::singular_name(), "kilometer");
}

#[test]
fn pi_fraction_is_close_to_pi() {
    assert_eq!(PI_NUMERATOR as f64 / PI_DENOMINATOR as f64, std::f64::consts::PI);
}

#[test]
fn checked_construction_reports_overflow() {
    assert!(Length::<Kilometers>::checked_from_number(10_000_000).is_none());
    let fits = Length::<Kilometers>::checked_from_number(9_223_372).unwrap();
    assert_eq!(fits.magnitude_nm(), 9_223_372_000_000_000_000);
    assert!(Length::<Kilometers>::checked_from_number(-10_000_000).is_none());
}

#[test]
fn subtraction_is_left_tagged_magnitude_difference() {
    let a = Length::<Meters>::from_number(2);
    let b = Length::<Millimeters>::from_number(500);
    let d = a - b;
    assert_eq!(d.magnitude_nm(), 1_500_000_000);
}

#[test]
fn scalar_multiplication_scales_magnitude() {
    let l = Length::<Meters>::from_number(3);
    let m = l * -4;
    assert_eq!(m.magnitude_nm(), -12_000_000_000);
}

#[test]
fn scalar_division_truncates_toward_zero() {
    let l = Length::<Millimeters> { nm: 7, unit: PhantomData };
    assert_eq!((l / 2).magnitude_nm(), 3);
    let n = Length::<Millimeters> { nm: -7, unit: PhantomData };
    assert_eq!((n / 2).magnitude_nm(), -3);
    assert_eq!((n / -2).magnitude_nm(), 3);
}

#[test]
fn sqrt_of_perfect_square() {
    let l = Length::<Millimeters> { nm: 152_399_025, unit: PhantomData };
    let r = l.sqrt().unwrap();
    assert_eq!(r.magnitude_nm(), 12_345);
}

#[test]
fn sqrt_rounds_down() {
    let l = Length::<Meters> { nm: 3, unit: PhantomData };
    assert_eq!(l.sqrt().unwrap().magnitude_nm(), 1);
    let z = Length::<Meters> { nm: 0, unit: PhantomData };
    assert_eq!(z.sqrt().unwrap().magnitude_nm(), 0);
    let big = Length::<Meters> { nm: i64::MAX, unit: PhantomData };
    assert_eq!(big.sqrt().unwrap().magnitude_nm(), 3_037_000_499);
}

#[test]
fn sqrt_of_negative_fails() {
    let l = Length::<Meters>::from_number(-1);
    let err = l.sqrt().unwrap_err();
    assert_eq!(err, "Can't take sqrt of negative number");
}

#[test]
fn circumference_of_negative_radius() {
    let r = Length::<Millimeters> { nm: -10_000_000, unit: PhantomData };
    let c = circumference(r);
    assert_eq!(c.magnitude_nm(), -62_831_853);
}
