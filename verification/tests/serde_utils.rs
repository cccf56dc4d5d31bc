use atb::serde_utils::decimal::{i64_to_text, parse_i64, u64_to_text, IntErrorKind};
use atb::serde_utils::{
    bytes_as_base64, de_base64_as_bytes, de_empty_as_none, de_string_as_i64, empty_string_none,
    i64_as_string, ser_bytes_as_base64, ser_empty_string_as_none, ser_i64_as_string,
};

fn std_kind(s: &str) -> Option<IntErrorKind> {
    match s.parse::<i64>() {
        Ok(_) => None,
        Err(e) => Some(match e.kind() {
            std::num::IntErrorKind::Empty => IntErrorKind::Empty,
            std::num::IntErrorKind::InvalidDigit => IntErrorKind::InvalidDigit,
            std::num::IntErrorKind::PosOverflow => IntErrorKind::PosOverflow,
            std::num::IntErrorKind::NegOverflow => IntErrorKind::NegOverflow,
            _ => panic!("unexpected kind"),
        }),
    }
}

#[test]
fn i64_text_matches_std() {
    for x in [0i64, 7, -7, 10, 1234567890, i64::MAX, i64::MIN, -1] {
        assert_eq!(i64_to_text(x), x.to_string());
        assert_eq!(ser_i64_as_string(&x), x.to_string());
        assert_eq!(i64_as_string::serialize(x), x.to_string());
    }
}

#[test]
fn i64_parse_matches_std() {
    let cases = [
        "0", "42", "-42", "+42", "", "-", "+", "12a", " 1", "9223372036854775807",
        "9223372036854775808", "-9223372036854775808", "-9223372036854775809", "007", "--1",
    ];
    for s in cases {
        assert_eq!(parse_i64(s).ok(), s.parse::<i64>().ok(), "{s}");
        assert_eq!(parse_i64(s).err(), std_kind(s), "{s}");
        assert_eq!(de_string_as_i64(s).ok(), s.parse::<i64>().ok(), "{s}");
    }
    assert_eq!(i64_as_string::deserialize("123"), Ok(123));
    assert_eq!(i64_as_string::deserialize("x"), Err(IntErrorKind::InvalidDigit));
}

#[test]
fn i64_text_round_trips() {
    for x in [0i64, 5, -5, i64::MAX, i64::MIN] {
        assert_eq!(parse_i64(&i64_to_text(x)), Ok(x));
    }
}

#[test]
fn empty_strings_are_absent() {
    assert_eq!(ser_empty_string_as_none(&None), None);
    assert_eq!(ser_empty_string_as_none(&Some(String::new())), None);
    assert_eq!(ser_empty_string_as_none(&Some("a".to_owned())), Some("a"));
    assert_eq!(de_empty_as_none(Some(String::new())), None);
    assert_eq!(de_empty_as_none(Some("a".to_owned())), Some("a".to_owned()));
    assert_eq!(de_empty_as_none(None), None);
    assert_eq!(empty_string_none::deserialize(Some("".to_owned())), None);
    assert_eq!(empty_string_none::serialize(&Some("x".to_owned())), Some("x"));
}

#[test]
fn bytes_are_standard_base64() {
    assert_eq!(ser_bytes_as_base64(b"hello"), "aGVsbG8=");
    assert_eq!(bytes_as_base64::serialize(&[0xff, 0xfe]), "//4=");
    assert_eq!(de_base64_as_bytes("aGVsbG8=").unwrap(), b"hello");
    assert!(de_base64_as_bytes("not base64").is_err());
    assert_eq!(bytes_as_base64::deserialize("//4=").unwrap(), vec![0xff, 0xfe]);
}

#[test]
fn int_error_messages_match_std() {
    for s in ["", "x", "99999999999999999999", "-99999999999999999999"] {
        let std_msg = s.parse::<i64>().unwrap_err().to_string();
        assert_eq!(parse_i64(s).unwrap_err().message(), std_msg);
    }
}

#[test]
fn unsigned_text_matches_std() {
    for n in [0u64, 9, 10, 1234, u64::MAX] {
        assert_eq!(u64_to_text(n), n.to_string());
    }
}
