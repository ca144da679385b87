use finance_calc::decimal::{push_decimal, to_decimal};

#[test]
fn single_digits() {
    assert_eq!(to_decimal(0), "0");
    assert_eq!(to_decimal(7), "7");
    assert_eq!(to_decimal(9), "9");
}

#[test]
fn several_digits() {
    assert_eq!(to_decimal(10), "10");
    assert_eq!(to_decimal(100), "100");
    assert_eq!(to_decimal(260), "260");
    assert_eq!(to_decimal(1234567890), "1234567890");
}

#[test]
fn negative_numbers_carry_a_sign() {
    assert_eq!(to_decimal(-1), "-1");
    assert_eq!(to_decimal(-15), "-15");
    assert_eq!(to_decimal(-1000), "-1000");
}

#[test]
fn extremes_of_the_range() {
    assert_eq!(to_decimal(i64::MAX), "9223372036854775807");
    assert_eq!(to_decimal(i64::MIN), "-9223372036854775808");
}

#[test]
fn agrees_with_the_standard_notation() {
    let mut n: i64 = -5000;
    while n <= 5000 {
        assert_eq!(to_decimal(n), n.to_string());
        n += 7;
    }
}

#[test]
fn push_appends_to_what_is_there() {
    let mut out = String::from("x=");
    push_decimal(&mut out, 45);
    assert_eq!(out, "x=45");
    push_decimal(&mut out, -3);
    assert_eq!(out, "x=45-3");
}
