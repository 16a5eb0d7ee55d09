use testing_library_dom::number::{parse_i64, parse_usize};

#[test]
fn whole_numbers_are_read() {
    assert_eq!(Some(0), parse_usize("0"));
    assert_eq!(Some(7), parse_usize("007"));
    assert_eq!(Some(42), parse_usize("+42"));
    assert_eq!(Some(usize::MAX), parse_usize(&usize::MAX.to_string()));
    assert_eq!(None, parse_usize("18446744073709551616"));
    assert_eq!(None, parse_usize("99999999999999999999999999"));
    assert_eq!(None, parse_usize(""));
    assert_eq!(None, parse_usize("+"));
    assert_eq!(None, parse_usize("-1"));
    assert_eq!(None, parse_usize(" 1"));
    assert_eq!(None, parse_usize("1 "));
    assert_eq!(None, parse_usize("1.0"));
    assert_eq!(None, parse_usize("one"));
    assert_eq!(None, parse_usize("1a"));
}

#[test]
fn signed_numbers_are_read() {
    assert_eq!(Some(0), parse_i64("0"));
    assert_eq!(Some(0), parse_i64("-0"));
    assert_eq!(Some(-15), parse_i64("-15"));
    assert_eq!(Some(15), parse_i64("+15"));
    assert_eq!(Some(i64::MAX), parse_i64("9223372036854775807"));
    assert_eq!(None, parse_i64("9223372036854775808"));
    assert_eq!(Some(i64::MIN), parse_i64("-9223372036854775808"));
    assert_eq!(None, parse_i64("-9223372036854775809"));
    assert_eq!(None, parse_i64("-"));
    assert_eq!(None, parse_i64("--1"));
    assert_eq!(None, parse_i64("+-1"));
    assert_eq!(None, parse_i64("1e3"));
    assert_eq!(None, parse_i64("2.5"));
    assert_eq!(None, parse_i64(""));
}
