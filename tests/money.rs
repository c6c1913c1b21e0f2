use strichliste::money::{DECIMAL_SEPARATOR, EURO_SIGN};
use strichliste::{LedgerError, Money};

#[test]
fn format_major_and_minor_units() {
    assert_eq!(Money::new(1234).format(','), "12,34");
    assert_eq!(Money::new(5).format('.'), "0.05");
    assert_eq!(Money::new(-1050).format(','), "-10,50");
    assert_eq!(Money::new(0).format(','), "0,00");
    assert_eq!(Money::new(i64::MIN).format(','), "-92233720368547758,08");
}

#[test]
fn signed_diff_always_has_a_sign() {
    assert_eq!(Money::new(0).format_signed_diff(','), "+0,00");
    assert_eq!(Money::new(250).format_signed_diff(','), "+2,50");
    assert_eq!(Money::new(-7).format_signed_diff(','), "-0,07");
}

#[test]
fn euro_diff_value() {
    assert_eq!(DECIMAL_SEPARATOR, ',');
    assert_eq!(Money::format_eur_diff_value(-1050), format!("-10,50{}", EURO_SIGN));
    assert_eq!(Money::format_eur_diff_value(100000), "+1000,00\u{20ac}");
}

#[test]
fn add_and_subtract_are_exact() {
    assert_eq!(Money::new(5).add(Money::new(-8)), Ok(Money::new(-3)));
    assert_eq!(Money::new(5).subtract(Money::new(8)), Ok(Money::new(-3)));
    assert_eq!(Money::new(i64::MAX).add(Money::new(1)), Err(LedgerError::AmountOverflow));
    assert_eq!(Money::new(i64::MIN).subtract(Money::new(1)), Err(LedgerError::AmountOverflow));
}
