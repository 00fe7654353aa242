use relay::decimal::{render_i32, render_u64};

#[test]
fn renders_zero() {
    assert_eq!(render_u64(0), "0");
    assert_eq!(render_i32(0), "0");
}

#[test]
fn renders_negative_numbers_with_a_sign() {
    assert_eq!(render_i32(-5), "-5");
    assert_eq!(render_i32(i32::MIN), "-2147483648");
    assert_eq!(render_i32(i32::MAX), "2147483647");
}

#[test]
fn renders_the_largest_unsigned_value() {
    assert_eq!(render_u64(u64::MAX), "18446744073709551615");
    assert_eq!(render_u64(1234567890), "1234567890");
}
