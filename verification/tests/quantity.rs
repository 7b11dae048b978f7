use greenhouse::quantity::Quantity;
use greenhouse::timestamp::Timestamp;

#[test]
fn from_units_scales_by_a_thousand() {
    assert_eq!(Quantity::from_units(22).milli, 22_000);
    assert_eq!(Quantity::from_units(0).milli, 0);
    assert_eq!(Quantity::from_units(-5).milli, -5_000);
    assert_eq!(Quantity::from_units(i32::MAX).milli, 2_147_483_647_000);
    assert_eq!(Quantity::from_units(i32::MIN).milli, -2_147_483_648_000);
}

#[test]
fn from_milli_keeps_the_number() {
    assert_eq!(Quantity::from_milli(25_500), Quantity { milli: 25_500 });
    assert_eq!(Quantity::from_milli(i64::MIN).milli, i64::MIN);
}

#[test]
fn is_below_is_strict() {
    let target = Quantity::from_units(20);
    assert!(Quantity::from_milli(19_999).is_below(target));
    assert!(!Quantity::from_milli(20_000).is_below(target));
    assert!(!Quantity::from_milli(20_001).is_below(target));
    assert!(Quantity::from_milli(i64::MIN).is_below(Quantity::from_milli(i64::MAX)));
}

#[test]
fn is_above_band_needs_more_than_the_band() {
    let target = Quantity::from_units(20);
    let band = Quantity::from_units(1);
    assert!(!Quantity::from_milli(20_500).is_above_band(target, band));
    assert!(!Quantity::from_milli(21_000).is_above_band(target, band));
    assert!(Quantity::from_milli(21_001).is_above_band(target, band));
    assert!(!Quantity::from_milli(-3_000).is_above_band(target, band));
}

#[test]
fn is_above_band_with_zero_band_is_plain_greater() {
    let target = Quantity::from_units(50);
    let none = Quantity::from_milli(0);
    assert!(!Quantity::from_units(50).is_above_band(target, none));
    assert!(Quantity::from_milli(50_001).is_above_band(target, none));
}

#[test]
fn is_above_band_holds_at_the_ends_of_the_range() {
    let low = Quantity::from_milli(i64::MIN);
    let high = Quantity::from_milli(i64::MAX);
    assert!(high.is_above_band(low, high));
    assert!(!low.is_above_band(high, low));
    assert!(!high.is_above_band(high, Quantity::from_milli(0)));
    assert!(high.is_above_band(high, Quantity::from_milli(-1)));
}

#[test]
fn timestamps_order_by_seconds_then_nanos() {
    let a = Timestamp { seconds: 10, nanos: 999_999_999 };
    let b = Timestamp { seconds: 11, nanos: 0 };
    let c = Timestamp { seconds: 11, nanos: 1 };
    assert!(a.is_before(b));
    assert!(b.is_before(c));
    assert!(a.is_before(c));
    assert!(!b.is_before(a));
    assert!(!c.is_before(b));
    assert!(!b.is_before(b));
    assert!(Timestamp { seconds: -1, nanos: 5 }.is_before(Timestamp { seconds: 0, nanos: 0 }));
}
