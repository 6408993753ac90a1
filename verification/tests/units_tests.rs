use ackermann_control::units::{abs64, clamp64, div_trunc};

#[test]
fn clamp_holds_interval() {
    assert_eq!(clamp64(5, -10, 10), 5);
    assert_eq!(clamp64(-11, -10, 10), -10);
    assert_eq!(clamp64(11, -10, 10), 10);
    assert_eq!(clamp64(i64::MIN, -10, 10), -10);
    assert_eq!(clamp64(i64::MAX, -10, 10), 10);
}

#[test]
fn abs_is_magnitude() {
    assert_eq!(abs64(0), 0);
    assert_eq!(abs64(-7), 7);
    assert_eq!(abs64(7), 7);
}

#[test]
fn division_truncates_toward_zero() {
    assert_eq!(div_trunc(7, 2), 3);
    assert_eq!(div_trunc(-7, 2), -3);
    assert_eq!(div_trunc(999, 1000), 0);
    assert_eq!(div_trunc(-999, 1000), 0);
}
