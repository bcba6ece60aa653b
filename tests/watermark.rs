use gh_notifier::{decode_watermark, encode_watermark, load_watermark, watermark_from, Instant};

fn not_before(a: Instant, b: Instant) -> bool {
    !b.later_than(&a)
}

#[test]
fn encode_writes_rfc3339() {
    assert_eq!(encode_watermark(Instant::new(1704067200, 0)), "2024-01-01T00:00:00+00:00");
    assert_eq!(encode_watermark(Instant::new(0, 500_000_000)), "1970-01-01T00:00:00.500+00:00");
    assert_eq!(encode_watermark(Instant::new(1, 123_456_789)), "1970-01-01T00:00:01.123456789+00:00");
}

#[test]
fn write_then_read_round_trips() {
    let now = Instant::new(5, 0);
    for t in [
        Instant::new(1704067200, 0),
        Instant::new(1704067200, 123_456_789),
        Instant::new(1704067200, 1_000),
        Instant::new(-1, 999_999_999),
        Instant::new(253402300799, 999_999_999),
        Instant::new(-62167219200, 0),
    ] {
        let text = encode_watermark(t);
        assert_eq!(decode_watermark(&text, now), t);
    }
}

#[test]
fn round_trip_keeps_leap_second() {
    let t = Instant::parse_rfc3339("2016-12-31T23:59:60.25Z").unwrap();
    assert_eq!(t, Instant::new(1483228799, 1_250_000_000));
    let text = encode_watermark(t);
    assert_eq!(text, "2016-12-31T23:59:60.250+00:00");
    assert_eq!(decode_watermark(&text, Instant::new(0, 0)), t);
}

#[test]
fn decode_trims_white_space() {
    let now = Instant::new(5, 0);
    assert_eq!(decode_watermark("  2024-01-01T00:00:00Z\n", now), Instant::new(1704067200, 0));
    assert_eq!(decode_watermark("2024-01-01T01:00:00+01:00\r\n", now), Instant::new(1704067200, 0));
}

#[test]
fn decode_of_garbage_is_now() {
    let now = Instant::new(1_700_000_000, 17);
    assert_eq!(decode_watermark("garbage", now), now);
    assert_eq!(decode_watermark("", now), now);
    assert_eq!(decode_watermark("2024-13-01T00:00:00Z", now), now);
}

#[test]
fn load_without_store_is_current_time() {
    let before = Instant::now();
    let w = load_watermark(None);
    assert!(not_before(w, before));
}

#[test]
fn load_of_garbage_is_current_time() {
    let before = Instant::now();
    let w = load_watermark(Some("\u{0}\u{1}not a time".to_string()));
    assert!(not_before(w, before));
    assert!(w.secs > 1_600_000_000);
}

#[test]
fn load_of_stored_text_is_that_instant() {
    let w = load_watermark(Some("2024-01-01T00:00:00+00:00\n".to_string()));
    assert_eq!(w, Instant::new(1704067200, 0));
}

#[test]
fn parse_reads_offsets_into_utc() {
    assert_eq!(Instant::parse_rfc3339("2024-01-01T00:00:00Z"), Some(Instant::new(1704067200, 0)));
    assert_eq!(
        Instant::parse_rfc3339("2024-01-01T02:00:00.5+02:00"),
        Some(Instant::new(1704067200, 500_000_000))
    );
    assert_eq!(Instant::parse_rfc3339("2024-01-01"), None);
    assert_eq!(Instant::parse_rfc3339(" 2024-01-01T00:00:00Z"), None);
}

#[test]
fn to_rfc3339_of_instant() {
    assert_eq!(Instant::new(1704063600, 0).to_rfc3339(), "2023-12-31T23:00:00+00:00");
}

#[test]
fn later_than_orders_instants() {
    assert!(Instant::new(2, 0).later_than(&Instant::new(1, 999_999_999)));
    assert!(Instant::new(1, 2).later_than(&Instant::new(1, 1)));
    assert!(!Instant::new(1, 1).later_than(&Instant::new(1, 1)));
    assert!(!Instant::new(-5, 0).later_than(&Instant::new(0, 0)));
}

#[test]
fn clock_reads_present_time() {
    let t = Instant::now();
    assert!(t.secs > 1_600_000_000);
    assert!(t.nanos < 2_000_000_000);
}

#[test]
fn missing_store_starts_from_clock_reading() {
    let now = Instant::new(1_700_000_000, 5);
    assert_eq!(watermark_from(None, now), now);
}

#[test]
fn damaged_store_starts_from_clock_reading() {
    let now = Instant::new(1_700_000_000, 5);
    assert_eq!(watermark_from(Some("garbage".to_string()), now), now);
    assert_eq!(watermark_from(Some(String::new()), now), now);
}

#[test]
fn stored_text_wins_over_clock_reading() {
    let now = Instant::new(1_700_000_000, 5);
    let stored = Some(" 2024-01-01T00:00:00.25+00:00\n".to_string());
    assert_eq!(watermark_from(stored, now), Instant::new(1704067200, 250_000_000));
}

#[test]
fn load_without_store_is_between_clock_readings() {
    let before = Instant::now();
    let w = load_watermark(None);
    let after = Instant::now();
    assert!(not_before(w, before));
    assert!(not_before(after, w));
}
