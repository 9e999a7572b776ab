use retry_fn::Dur;

#[test]
fn dur_units() {
    assert_eq!(Dur::from_nanos(5).as_nanos(), 5);
    assert_eq!(Dur::from_micros(5).as_nanos(), 5_000);
    assert_eq!(Dur::from_millis(5).as_nanos(), 5_000_000);
    assert_eq!(Dur::from_secs(5).as_nanos(), 5_000_000_000);
}

#[test]
fn dur_checked_mul() {
    assert_eq!(Dur::from_nanos(3).checked_mul(4), Some(Dur::from_nanos(12)));
    assert_eq!(Dur { nanos: u128::MAX }.checked_mul(2), None);
    assert_eq!(Dur { nanos: u128::MAX }.checked_mul(1), Some(Dur::max_value()));
}
