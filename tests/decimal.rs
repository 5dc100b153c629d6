use geomatic::decimal::{pow10_exec, Decimal, MAX_SCALE};

#[test]
fn powers_of_ten() {
    assert_eq!(pow10_exec(0), 1);
    assert_eq!(pow10_exec(1), 10);
    assert_eq!(pow10_exec(9), 1_000_000_000);
    assert_eq!(pow10_exec(MAX_SCALE), 1_000_000_000_000_000_000);
}

#[test]
fn decimal_scale_limit() {
    assert!(Decimal { mantissa: 1, scale: 18 }.is_valid());
    assert!(!Decimal { mantissa: 1, scale: 19 }.is_valid());
}
