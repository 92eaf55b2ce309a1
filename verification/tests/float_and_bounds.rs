use stahlwerk_extension::float::{Float32, Float64};
use stahlwerk_extension::TargetRange;

fn f(x: f64) -> Float64 {
    Float64::from_bits(x.to_bits())
}

fn samples() -> Vec<f64> {
    vec![
        0.0,
        -0.0,
        1.0,
        -1.0,
        9.85,
        12.25,
        -3.5,
        f64::MIN_POSITIVE,
        -f64::MIN_POSITIVE,
        5e-324,
        -5e-324,
        f64::MAX,
        f64::MIN,
        f64::INFINITY,
        f64::NEG_INFINITY,
        f64::NAN,
        -f64::NAN,
        f64::from_bits(0x7ff0_0000_0000_0001),
    ]
}

#[test]
fn comparisons_agree_with_f64() {
    for a in samples() {
        for b in samples() {
            assert_eq!(f(a).le(&f(b)), a <= b, "{} <= {}", a, b);
            assert_eq!(f(a).float_eq(&f(b)), a == b, "{} == {}", a, b);
        }
        assert_eq!(f(a).is_zero(), a == 0.0, "{} == 0", a);
        assert_eq!(f(a).is_nan(), a.is_nan(), "{} is nan", a);
    }
}

#[test]
fn bits_round_trip() {
    assert_eq!(f(9.85).to_bits(), 9.85f64.to_bits());
    assert_eq!(Float64::zero().to_bits(), 0.0f64.to_bits());
    assert_eq!(Float32::from_bits(2.5f32.to_bits()).to_bits(), 2.5f32.to_bits());
}

#[test]
fn in_bounds_agrees_with_f64() {
    let range = TargetRange { min: f(9.7), max: f(10.3), desired: f(10.0) };
    for v in samples().into_iter().chain(vec![9.7, 10.3, 9.69, 10.31, 10.0]) {
        assert_eq!(range.in_bounds(f(v)), v >= 9.7 && v <= 10.3, "{}", v);
    }
}

#[test]
fn in_bounds_includes_the_ends() {
    let range = TargetRange { min: f(1.0), max: f(2.0), desired: f(1.5) };
    assert!(range.in_bounds(f(1.0)));
    assert!(range.in_bounds(f(2.0)));
    assert!(range.in_bounds(f(1.5)));
    assert!(!range.in_bounds(f(0.999)));
    assert!(!range.in_bounds(f(2.001)));
    assert!(!range.in_bounds(f(f64::NAN)));
}

#[test]
fn empty_range_holds_nothing() {
    let range = TargetRange { min: f(2.0), max: f(1.0), desired: f(1.5) };
    for v in samples() {
        assert!(!range.in_bounds(f(v)));
    }
}

#[test]
fn negative_zero_is_in_a_range_starting_at_zero() {
    let range = TargetRange { min: f(0.0), max: f(1.0), desired: f(0.5) };
    assert!(range.in_bounds(f(-0.0)));
}
