//! Scalar codec behaviour: the hex identifier and the fixed-pattern
//! date-time.

use card_codec::datetime::{parse_datetime, format_datetime, DateTime};
use card_codec::hex_id::{decode_u32, encode_u32};

#[test]
fn hex_encodes_lowercase_padded() {
    assert_eq!(encode_u32(42), "0x0000002a");
    assert_eq!(encode_u32(0), "0x00000000");
    assert_eq!(encode_u32(u32::MAX), "0xffffffff");
}

#[test]
fn hex_decodes_value() {
    assert_eq!(decode_u32("0x0000002a"), Some(42));
    assert_eq!(decode_u32("0xffffffff"), Some(u32::MAX));
}

#[test]
fn hex_round_trips() {
    for v in [0u32, 1, 42, 0xdead_beef, u32::MAX] {
        assert_eq!(decode_u32(&encode_u32(v)), Some(v));
    }
}

#[test]
fn hex_rejects_missing_prefix() {
    assert_eq!(decode_u32("2a"), None);
    assert_eq!(decode_u32("0000002a"), None);
}

#[test]
fn hex_rejects_bad_digits_and_length() {
    assert_eq!(decode_u32("0xzz"), None);
    assert_eq!(decode_u32("0x2a"), None);
    assert_eq!(decode_u32("0x0000002a00"), None);
}

#[test]
fn hex_accepts_uppercase_digits() {
    assert_eq!(decode_u32("0x0000002A"), Some(42));
}

#[test]
fn datetime_decodes_exact_pattern() {
    let dt = parse_datetime("2023-01-05 14:03:09+00:00").unwrap();
    assert_eq!(
        dt,
        DateTime { year: 2023, month: 1, day: 5, hour: 14, minute: 3, second: 9 }
    );
    assert_eq!(format_datetime(&dt), "2023-01-05 14:03:09+00:00");
}

#[test]
fn datetime_rejects_unpadded() {
    assert_eq!(parse_datetime("2023-1-5 14:3:9+00:00"), None);
}

#[test]
fn datetime_rejects_other_shapes() {
    assert_eq!(parse_datetime("2023-01-05T14:03:09Z"), None);
    assert_eq!(parse_datetime("2023-01-05 14:03:09+01:00"), None);
    assert_eq!(parse_datetime("2023-01-05 14:03:09"), None);
}

#[test]
fn datetime_checks_calendar() {
    assert_eq!(parse_datetime("2023-02-29 00:00:00+00:00"), None);
    assert!(parse_datetime("2024-02-29 00:00:00+00:00").is_some());
    assert_eq!(parse_datetime("2023-13-01 00:00:00+00:00"), None);
    assert_eq!(parse_datetime("2023-00-01 00:00:00+00:00"), None);
    assert_eq!(parse_datetime("2023-04-31 00:00:00+00:00"), None);
    assert_eq!(parse_datetime("2023-01-01 24:00:00+00:00"), None);
}
