use mio_st::time::Duration;

#[test]
fn duration_new_carries_whole_seconds() {
    let d = Duration::new(1, 2_500_000_000);
    assert_eq!(d.as_secs(), 3);
    assert_eq!(d.subsec_nanos(), 500_000_000);
    assert_eq!(d.as_nanos(), 3_500_000_000);
}

#[test]
fn duration_units() {
    assert_eq!(Duration::from_secs(2).as_nanos(), 2_000_000_000);
    assert_eq!(Duration::from_millis(1_234).as_nanos(), 1_234_000_000);
    assert_eq!(Duration::from_millis(1_234).as_secs(), 1);
    assert_eq!(Duration::from_millis(1_234).subsec_nanos(), 234_000_000);
    assert_eq!(Duration::from_micros(1_000_001).as_nanos(), 1_000_001_000);
    assert_eq!(Duration::from_nanos(1_000_000_001).as_secs(), 1);
    assert_eq!(Duration::from_nanos(1_000_000_001).subsec_nanos(), 1);
    assert_eq!(Duration::from_nanos(2_999_999).as_millis(), 2);
    assert!(Duration::zero().is_zero());
    assert!(!Duration::from_nanos(1).is_zero());
}

#[test]
fn duration_saturating() {
    assert_eq!(Duration::from_nanos_saturating(5).as_nanos(), 5);
    let max = Duration::max_value();
    assert_eq!(max.as_secs(), u64::MAX);
    assert_eq!(max.subsec_nanos(), 999_999_999);
    assert_eq!(Duration::from_nanos_saturating(u128::MAX), max);
    assert_eq!(Duration::from_nanos_saturating(max.as_nanos()), max);
    assert_eq!(Duration::from_nanos_saturating(max.as_nanos() + 1), max);
}

#[test]
fn duration_compare() {
    let a = Duration::from_millis(10);
    let b = Duration::from_millis(20);
    assert!(a.le(&b));
    assert!(a.le(&a));
    assert!(!b.le(&a));
    assert!(a.lt(&b));
    assert!(!a.lt(&a));
    assert_eq!(a.min(b), a);
    assert_eq!(b.min(a), a);
}

#[test]
fn duration_checked_arithmetic() {
    let a = Duration::new(2, 100);
    let b = Duration::new(1, 200);
    assert_eq!(a.checked_sub(b), Some(Duration::new(0, 999_999_900)));
    assert_eq!(b.checked_sub(a), None);
    assert_eq!(a.checked_sub(a), Some(Duration::zero()));
    assert_eq!(a.checked_add(b), Some(Duration::new(3, 300)));
    assert_eq!(Duration::max_value().checked_add(Duration::from_nanos(1)), None);
    assert_eq!(Duration::max_value().checked_add(Duration::zero()), Some(Duration::max_value()));
}
