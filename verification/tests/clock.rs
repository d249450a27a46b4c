use ttychat::clock::{epoch_seconds, format_timestamp, TimestampValue, EPOCH_MILLIS_CUTOFF};

fn local_hm(secs: i64) -> String {
    chrono::DateTime::from_timestamp(secs, 0)
        .unwrap()
        .with_timezone(&chrono::Local)
        .format("%H:%M")
        .to_string()
}

#[test]
fn seconds_and_milliseconds_agree_on_the_minute() {
    let a = format_timestamp(&TimestampValue::Epoch(1_700_000_000));
    let b = format_timestamp(&TimestampValue::Epoch(1_700_000_000_000));
    assert_eq!(a, b);
    assert_eq!(a, local_hm(1_700_000_000));
}

#[test]
fn cutoff_separates_the_two_unit_readings() {
    assert_eq!(epoch_seconds(EPOCH_MILLIS_CUTOFF), EPOCH_MILLIS_CUTOFF);
    assert_eq!(epoch_seconds(EPOCH_MILLIS_CUTOFF + 1), (EPOCH_MILLIS_CUTOFF + 1) / 1000);
    assert_eq!(epoch_seconds(123), 123);
}

#[test]
fn rfc3339_strings_render_as_local_hour_minute() {
    let s = "2023-11-14T22:13:20+00:00";
    let expected = chrono::DateTime::parse_from_rfc3339(s)
        .unwrap()
        .with_timezone(&chrono::Local)
        .format("%H:%M")
        .to_string();
    assert_eq!(format_timestamp(&TimestampValue::Text(s.to_string())), expected);
}

#[test]
fn malformed_timestamp_string_falls_back_to_its_head() {
    let r = format_timestamp(&TimestampValue::Text("not-a-time".to_string()));
    assert_eq!(r, "not-a");
    let r = format_timestamp(&TimestampValue::Text("hm".to_string()));
    assert_eq!(r, "hm");
}

#[test]
fn absent_timestamp_renders_the_current_minute() {
    let r = format_timestamp(&TimestampValue::Absent);
    assert_eq!(r.len(), 5);
    assert_eq!(r.as_bytes()[2], b':');
}
