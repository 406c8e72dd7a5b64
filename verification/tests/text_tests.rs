use reqwest_app::u64_to_dec;
use reqwest_app::u64_two_dec;

#[test]
fn decimal_rendering_is_exact() {
    assert_eq!(u64_to_dec(0), "0");
    assert_eq!(u64_to_dec(7), "7");
    assert_eq!(u64_to_dec(10), "10");
    assert_eq!(u64_to_dec(907), "907");
    assert_eq!(u64_to_dec(18446744073709551615), "18446744073709551615");
}

#[test]
fn two_digit_rendering_pads_with_zero() {
    assert_eq!(u64_two_dec(0), "00");
    assert_eq!(u64_two_dec(5), "05");
    assert_eq!(u64_two_dec(99), "99");
}
