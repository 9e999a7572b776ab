use retry_fn::Dur;
use retry_fn::strategy::BackoffStrategy;
use retry_fn::strategy::ConstantBackoff;
use retry_fn::strategy::ExponentialBackoff;
use retry_fn::strategy::FiniteBackoff;
use retry_fn::strategy::Immediate;

#[test]
fn constant_fixed() {
    let mut s = ConstantBackoff::new(Dur::from_millis(100));
    assert_eq!(s.next(), Some(Dur::from_millis(100)));
    assert_eq!(s.next(), Some(Dur::from_millis(100)));
    assert_eq!(s.next(), Some(Dur::from_millis(100)));
}

#[test]
fn fixed_secs() {
    let mut s = ConstantBackoff::new(Dur::from_secs(1));
    assert_eq!(s.next(), Some(Dur::from_secs(1)));
    assert_eq!(s.next(), Some(Dur::from_secs(1)));
    assert_eq!(s.next(), Some(Dur::from_secs(1)));
}

#[test]
fn constant_units() {
    let mut s = ConstantBackoff::from_micros(7);
    assert_eq!(s.next(), Some(Dur::from_micros(7)));
    let mut s = ConstantBackoff::from_nanos(9);
    assert_eq!(s.next(), Some(Dur::from_nanos(9)));
    let mut s = ConstantBackoff::from_millis(11);
    assert_eq!(s.next(), Some(Dur::from_millis(11)));
}

#[test]
fn constant_from_duration() {
    let s = ConstantBackoff::from(Dur::from_millis(5));
    assert_eq!(s, ConstantBackoff::new(Dur::from_millis(5)));
}

#[test]
fn doubles() {
    let mut s = ExponentialBackoff::from_millis(100);
    assert_eq!(s.next(), Some(Dur::from_millis(200)));
    assert_eq!(s.next(), Some(Dur::from_millis(400)));
    assert_eq!(s.next(), Some(Dur::from_millis(800)));
}

#[test]
fn tens() {
    let mut s = ExponentialBackoff::from_millis(100).base(10);
    assert_eq!(s.next(), Some(Dur::from_millis(1000)));
    assert_eq!(s.next(), Some(Dur::from_millis(10000)));
    assert_eq!(s.next(), Some(Dur::from_millis(100000)));
}

#[test]
fn hits_max() {
    let mut s = ExponentialBackoff::from_millis(100).base(10).max(Dur::from_millis(1_000_000));
    assert_eq!(s.next(), Some(Dur::from_millis(1_000)));
    assert_eq!(s.next(), Some(Dur::from_millis(10_000)));
    assert_eq!(s.next(), Some(Dur::from_millis(100_000)));
    assert_eq!(s.next(), Some(Dur::from_millis(1_000_000)));
    assert_eq!(s.next(), Some(Dur::from_millis(1_000_000)));
    assert_eq!(s.next(), Some(Dur::from_millis(1_000_000)));
}

#[test]
fn exponential_units() {
    let mut s = ExponentialBackoff::from_secs(1);
    assert_eq!(s.next(), Some(Dur::from_secs(2)));
    let mut s = ExponentialBackoff::from_micros(1);
    assert_eq!(s.next(), Some(Dur::from_micros(2)));
    let mut s = ExponentialBackoff::from_nanos(1);
    assert_eq!(s.next(), Some(Dur::from_nanos(2)));
}

#[test]
fn exponential_base_one() {
    let mut s = ExponentialBackoff::from_millis(100).base(1);
    assert_eq!(s.next(), Some(Dur::from_millis(100)));
    assert_eq!(s.next(), Some(Dur::from_millis(100)));
}

#[test]
fn exponential_saturates() {
    let mut s = ExponentialBackoff::new(Dur { nanos: u128::MAX });
    assert_eq!(s.next(), Some(Dur::max_value()));
    assert_eq!(s.next(), Some(Dur::max_value()));
}

#[test]
fn immediate_fixed() {
    let mut s = Immediate::new();
    assert_eq!(s.next(), Some(Dur::from_millis(0)));
    assert_eq!(s.next(), Some(Dur::from_millis(0)));
    assert_eq!(s.next(), Some(Dur::from_millis(0)));
}

#[test]
fn finite_yields_then_ends() {
    let mut s = FiniteBackoff::new(vec![Dur::from_millis(1), Dur::from_millis(2)]);
    assert_eq!(s.next(), Some(Dur::from_millis(1)));
    assert_eq!(s.next(), Some(Dur::from_millis(2)));
    assert_eq!(s.next(), None);
    assert_eq!(s.next(), None);
}
