use servo_pid::decimal::u64_to_decimal;
use servo_pid::rational::{gcd_u64, Rat};
use servo_pid::servo::{ReadInputError, TimeDelta};

#[test]
fn equivalence_ignores_the_representation() {
    assert!(Rat::new(2, 4).eqv(&Rat::new(1, 2)));
    assert!(Rat::new(-3, 6).eqv(&Rat::new(-1, 2)));
    assert!(!Rat::new(1, 3).eqv(&Rat::new(1, 2)));
    assert!(Rat::from_int(7).eqv(&Rat::new(14, 2)));
}

#[test]
fn arithmetic_is_exact() {
    let half = Rat::new(1, 2);
    let third = Rat::new(1, 3);
    assert!(half.checked_add(third).unwrap().eqv(&Rat::new(5, 6)));
    assert!(half.checked_sub(third).unwrap().eqv(&Rat::new(1, 6)));
    assert!(half.checked_mul(third).unwrap().eqv(&Rat::new(1, 6)));
    assert!(half.checked_div(third).unwrap().eqv(&Rat::new(3, 2)));
    // Dividing by a negative value keeps the denominator positive.
    let q = half.checked_div(Rat::new(-1, 3)).unwrap();
    assert!(q.eqv(&Rat::new(-3, 2)));
    assert!(q.den > 0);
}

#[test]
fn division_by_zero_is_refused() {
    assert!(Rat::from_int(1).checked_div(Rat::from_int(0)).is_none());
}

#[test]
fn sums_outside_the_representable_range_are_refused() {
    assert!(Rat::from_int(i64::MAX).checked_add(Rat::from_int(1)).is_none());
    assert!(Rat::from_int(i64::MAX).checked_add(Rat::from_int(-1)).is_some());
}

#[test]
fn zero_test_looks_at_the_value() {
    assert!(Rat::from_int(0).is_zero());
    assert!(Rat::new(0, 17).is_zero());
    assert!(!Rat::new(1, 17).is_zero());
}

#[test]
fn gcd_follows_euclid() {
    assert_eq!(gcd_u64(12, 8), 4);
    assert_eq!(gcd_u64(8, 12), 4);
    assert_eq!(gcd_u64(0, 9), 9);
    assert_eq!(gcd_u64(9, 0), 9);
    assert_eq!(gcd_u64(1_000_000_000, 1_000_000_000), 1_000_000_000);
    assert_eq!(gcd_u64(500_000_000, 1_000_000_000), 500_000_000);
}

#[test]
fn time_delta_constructors_count_nanoseconds() {
    assert_eq!(TimeDelta::from_secs(2).nanos, 2_000_000_000);
    assert_eq!(TimeDelta::from_nanos(7).nanos, 7);
    assert_eq!(TimeDelta::from_secs(0).nanos, 0);
}

#[test]
fn decimal_rendering_matches_usual_notation() {
    assert_eq!(u64_to_decimal(0), "0");
    assert_eq!(u64_to_decimal(7), "7");
    assert_eq!(u64_to_decimal(42), "42");
    assert_eq!(u64_to_decimal(1_234_567_890), "1234567890");
    assert_eq!(u64_to_decimal(u64::MAX), "18446744073709551615");
}

#[test]
fn read_input_error_keeps_its_message() {
    let e = ReadInputError::new("something went sideways");
    assert_eq!(e.message(), "something went sideways");
}
