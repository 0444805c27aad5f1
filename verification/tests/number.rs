use rsvg::number::Number;

fn n(x: f64) -> Number {
    Number::from_bits(x.to_bits())
}

#[test]
fn constants_are_the_numbers_they_name() {
    assert_eq!(Number::zero().to_bits(), 0.0f64.to_bits());
    assert_eq!(Number::half().to_bits(), 0.5f64.to_bits());
    assert_eq!(Number::one().to_bits(), 1.0f64.to_bits());
    assert_eq!(Number::default(), Number::zero());
}

#[test]
fn gt_compares_as_the_numbers_do() {
    let values = [
        0.0,
        -0.0,
        0.2,
        0.5,
        1.0,
        -0.2,
        -0.5,
        -1.0,
        1e300,
        -1e300,
        5e-324,
        -5e-324,
        f64::MAX,
        f64::MIN,
        f64::INFINITY,
        f64::NEG_INFINITY,
        f64::NAN,
        -f64::NAN,
        f64::MIN_POSITIVE,
        3.5,
        -3.5,
    ];
    for &a in &values {
        for &b in &values {
            assert_eq!(n(a).gt(n(b)), a > b, "{} > {}", a, b);
        }
    }
}

#[test]
fn zeros_are_equal_and_nothing_exceeds_a_non_number() {
    assert!(!n(0.0).gt(n(-0.0)));
    assert!(!n(-0.0).gt(n(0.0)));
    assert!(!n(f64::NAN).gt(n(0.0)));
    assert!(!n(1.0).gt(n(f64::NAN)));
    assert!(n(0.5).gt(n(0.2)));
    assert!(!n(0.2).gt(n(0.5)));
}
