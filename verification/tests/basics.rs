use sentience::hash::content_hash;
use sentience::ids::{new_uuid, uuid_string};
use sentience::text::{contains_text, i64_text, one_line_text, trim_end_char, u64_text};
use sentience::time::{
    is_representable, long_date, now_micros, rfc3339_seconds, EARLIEST_MICROS, LATEST_MICROS,
};

#[test]
fn content_hash_is_lowercase_sha256_hex() {
    assert_eq!(
        content_hash(b"abc"),
        "ba7816bf8f01cfea414140de5dae2223b00361a396177a9cb410ff61f20015ad"
    );
    assert_eq!(
        content_hash(b""),
        "e3b0c44298fc1c149afbf4c8996fb92427ae41e4649b934ca495991b7852b855"
    );
    assert_eq!(content_hash(b"some bytes").len(), 64);
}

#[test]
fn uuid_text_is_hyphenated_lowercase() {
    assert_eq!(
        uuid_string(0x550e8400e29b41d4a716446655440000),
        "550e8400-e29b-41d4-a716-446655440000"
    );
    assert_eq!(uuid_string(0), "00000000-0000-0000-0000-000000000000");
}

#[test]
fn new_uuids_are_version_4_rfc_variant() {
    for _ in 0..20 {
        let u = new_uuid();
        assert_eq!((u >> 76) & 0xf, 4);
        assert_eq!((u >> 62) & 0x3, 2);
    }
    assert_ne!(new_uuid(), new_uuid());
}

#[test]
fn instants_are_written_in_rfc3339_and_long_form() {
    assert_eq!(rfc3339_seconds(0), "1970-01-01T00:00:00Z");
    assert_eq!(rfc3339_seconds(1_700_000_000_123_456), "2023-11-14T22:13:20Z");
    assert_eq!(rfc3339_seconds(-1_000_000), "1969-12-31T23:59:59Z");
    assert_eq!(long_date(0), "Thursday, January 1, 1970");
    assert_eq!(long_date(1_700_000_000_000_000), "Tuesday, November 14, 2023");
}

#[test]
fn representable_range_is_exactly_what_the_formatter_accepts() {
    assert!(is_representable(EARLIEST_MICROS));
    assert!(is_representable(LATEST_MICROS));
    assert!(!is_representable(EARLIEST_MICROS - 1));
    assert!(!is_representable(LATEST_MICROS + 1));
    assert!(!rfc3339_seconds(EARLIEST_MICROS).is_empty());
    assert!(!rfc3339_seconds(LATEST_MICROS).is_empty());
    assert!(!long_date(LATEST_MICROS).is_empty());
    assert!(is_representable(now_micros()));
    assert!(now_micros() > 1_600_000_000_000_000);
}

#[test]
fn decimal_text() {
    assert_eq!(u64_text(0), "0");
    assert_eq!(u64_text(1234567890123), "1234567890123");
    assert_eq!(u64_text(u64::MAX), "18446744073709551615");
    assert_eq!(i64_text(-42), "-42");
    assert_eq!(i64_text(0), "0");
    assert_eq!(i64_text(i64::MIN), "-9223372036854775808");
    assert_eq!(i64_text(i64::MAX), "9223372036854775807");
}

#[test]
fn text_helpers() {
    assert_eq!(one_line_text("a\nb\n\nc"), "a b  c");
    assert!(contains_text("https://cdn/a.gif?size=1", ".gif"));
    assert!(!contains_text("https://cdn/a.webp", ".gif"));
    assert!(contains_text("abc", ""));
    assert_eq!(trim_end_char("http://x/v1///", '/'), "http://x/v1");
    assert_eq!(trim_end_char("///", '/'), "");
}

#[test]
fn representable_bounds_are_chronos_first_and_last_instants() {
    assert!(chrono::DateTime::from_timestamp_micros(EARLIEST_MICROS).is_some());
    assert!(chrono::DateTime::from_timestamp_micros(EARLIEST_MICROS - 1).is_none());
    assert!(chrono::DateTime::from_timestamp_micros(-8334601315200000000).is_none());
    assert!(chrono::DateTime::from_timestamp_micros(LATEST_MICROS).is_some());
    assert!(chrono::DateTime::from_timestamp_micros(LATEST_MICROS + 1).is_none());
    assert_eq!(chrono::DateTime::<chrono::Utc>::MIN_UTC.timestamp_micros(), EARLIEST_MICROS);
    assert_eq!(chrono::DateTime::<chrono::Utc>::MAX_UTC.timestamp_micros(), LATEST_MICROS);
    assert_eq!(rfc3339_seconds(EARLIEST_MICROS), "-262143-01-01T00:00:00Z");
    assert_eq!(rfc3339_seconds(LATEST_MICROS), "+262142-12-31T23:59:59Z");
}
