use ergo_lib_jni::keys::{eip3_path, eip3_path_unsigned, key_count};
use ergo_lib_jni::text::{is_empty_or_pair, parse_usize, IntParseError};

#[test]
fn eip3_paths_render_the_index() {
    assert_eq!(eip3_path(0), "m/44'/429'/0'/0/0");
    assert_eq!(eip3_path(17), "m/44'/429'/0'/0/17");
    assert_eq!(eip3_path(-5), "m/44'/429'/0'/0/-5");
    assert_eq!(eip3_path(i32::MIN), "m/44'/429'/0'/0/-2147483648");
    assert_eq!(eip3_path(i32::MAX), "m/44'/429'/0'/0/2147483647");
    assert_eq!(eip3_path_unsigned(4294967295), "m/44'/429'/0'/0/4294967295");
    assert_eq!(eip3_path_unsigned(10), "m/44'/429'/0'/0/10");
}

#[test]
fn key_count_is_at_least_one() {
    assert_eq!(key_count(0), 1);
    assert_eq!(key_count(1), 1);
    assert_eq!(key_count(3), 3);
    assert_eq!(key_count(150), 150);
    assert_eq!(key_count(-1), u32::MAX);
    assert_eq!(key_count(i32::MIN), 2147483648);
}

#[test]
fn parse_usize_like_std() {
    let cases = ["0", "12", "+7", "007", "", "+", "-", "-1", "1a", " 1", "99999999999999999999999", "18446744073709551615", "18446744073709551616", "٣"];
    for c in cases.iter() {
        let expected = c.parse::<usize>();
        let got = parse_usize(c);
        match (expected, got) {
            (Ok(a), Ok(b)) => assert_eq!(a, b),
            (Err(e), Err(k)) => assert_eq!(e.to_string(), k.message(), "case {:?}", c),
            (a, b) => panic!("case {:?}: std {:?}, ours {:?}", c, a, b),
        }
    }
    assert_eq!(parse_usize(""), Err(IntParseError::Empty));
    assert_eq!(parse_usize("+"), Err(IntParseError::InvalidDigit));
    assert_eq!(parse_usize("99999999999999999999999x"), Err(IntParseError::PosOverflow));
    assert_eq!(IntParseError::InvalidDigit.message(), "invalid digit found in string");
}

#[test]
fn empty_or_pair_texts() {
    assert!(is_empty_or_pair("", '[', ']'));
    assert!(is_empty_or_pair("[]", '[', ']'));
    assert!(!is_empty_or_pair("[ ]", '[', ']'));
    assert!(!is_empty_or_pair("{}", '[', ']'));
    assert!(is_empty_or_pair("{}", '{', '}'));
    assert!(!is_empty_or_pair("[", '[', ']'));
}
