use xcb_events::text::{dec, ind, signed_dec};

#[test]
fn numbers_are_decimal() {
    assert_eq!(dec(0), "0");
    assert_eq!(dec(10), "10");
    assert_eq!(dec(907), "907");
    assert_eq!(dec(u64::MAX), "18446744073709551615");
    assert_eq!(signed_dec(35), "35");
    assert_eq!(signed_dec(-1), "-1");
    assert_eq!(signed_dec(i32::MIN), "-2147483648");
}

#[test]
fn indentation_is_four_spaces_a_level() {
    assert_eq!(ind(0), "");
    assert_eq!(ind(3), "            ");
}
