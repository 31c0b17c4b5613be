use chrono::{DateTime, FixedOffset, NaiveDate, NaiveTime};
use neo4j_nif::value::ElixirValue;
use neo4j_nif::wire::WireValue;
use neo4rs::{
    BoltDate, BoltDateTime, BoltDateTimeZoneId, BoltDuration, BoltInteger, BoltLocalDateTime,
    BoltLocalTime, BoltTime,
};

fn rendered(value: WireValue) -> String {
    match ElixirValue::from_bolt(value) {
        ElixirValue::String(text) => text,
        other => panic!("not a string: {:?}", other),
    }
}

fn expected_byte_text(byte: u8) -> String {
    match byte {
        b'\n' => "\\n".to_string(),
        b'\r' => "\\r".to_string(),
        b'\t' => "\\t".to_string(),
        b'\\' => "\\\\".to_string(),
        b'"' => "\\\"".to_string(),
        0 => "\\0".to_string(),
        0x20..=0x7e => (byte as char).to_string(),
        _ => {
            let digits: Vec<char> = "0123456789abcdef".chars().collect();
            let mut text = "\\x".to_string();
            text.push(digits[(byte / 16) as usize]);
            text.push(digits[(byte % 16) as usize]);
            text
        }
    }
}

#[test]
fn printable_bytes_are_rendered_as_a_byte_string() {
    assert_eq!(rendered(WireValue::Bytes(b"hello, world".to_vec())), "b\"hello, world\"");
}

#[test]
fn no_bytes_are_rendered_as_the_empty_byte_string() {
    assert_eq!(rendered(WireValue::Bytes(vec![])), "b\"\"");
}

#[test]
fn escaped_bytes_are_rendered_with_a_backslash() {
    assert_eq!(
        rendered(WireValue::Bytes(vec![b'a', b'\n', b'\r', b'\t', b'\\', b'"', 0, b'z'])),
        "b\"a\\n\\r\\t\\\\\\\"\\0z\""
    );
}

#[test]
fn other_bytes_are_rendered_in_hexadecimal() {
    assert_eq!(
        rendered(WireValue::Bytes(vec![0x01, 0x1f, 0x7f, 0x80, 0xab, 0xff])),
        "b\"\\x01\\x1f\\x7f\\x80\\xab\\xff\""
    );
}

#[test]
fn every_byte_is_rendered_by_the_stated_format() {
    let mut all = Vec::new();
    let mut expected = "b\"".to_string();
    for byte in 0..=255u8 {
        all.push(byte);
        expected.push_str(&expected_byte_text(byte));
        assert_eq!(
            rendered(WireValue::Bytes(vec![byte])),
            format!("b\"{}\"", expected_byte_text(byte))
        );
    }
    expected.push('"');
    assert_eq!(rendered(WireValue::Bytes(all)), expected);
}

#[test]
fn the_same_bytes_are_rendered_the_same() {
    let first = rendered(WireValue::Bytes(vec![1, 2, 3, b'x']));
    let second = rendered(WireValue::Bytes(vec![1, 2, 3, b'x']));
    assert_eq!(first, second);
    assert_eq!(first, "b\"\\x01\\x02\\x03x\"");
}

#[test]
fn a_date_is_rendered_by_its_debug_form() {
    let date = NaiveDate::from_ymd_opt(2010, 1, 1).unwrap();
    assert_eq!(
        rendered(WireValue::Date(BoltDate::from(date))),
        "BoltDate { days: BoltInteger { value: 14610 } }"
    );
    assert_eq!(
        rendered(WireValue::Date(BoltDate::from(date))),
        format!("{:?}", BoltDate::from(date))
    );
}

#[test]
fn a_date_before_the_epoch_has_negative_days() {
    let date = NaiveDate::from_ymd_opt(1969, 12, 31).unwrap();
    assert_eq!(
        rendered(WireValue::Date(BoltDate::from(date))),
        "BoltDate { days: BoltInteger { value: -1 } }"
    );
}

#[test]
fn a_time_is_rendered_by_its_debug_form() {
    let time = NaiveTime::from_hms_nano_opt(7, 8, 9, 100).unwrap();
    let offset = FixedOffset::east_opt(2 * 3600).unwrap();
    assert_eq!(
        rendered(WireValue::Time(BoltTime::from((time, offset)))),
        "BoltTime { nanoseconds: BoltInteger { value: 25689000000100 }, \
         tz_offset_seconds: BoltInteger { value: 7200 } }"
    );
}

#[test]
fn a_local_time_is_rendered_by_its_debug_form() {
    let time = NaiveTime::from_hms_nano_opt(0, 0, 1, 5).unwrap();
    assert_eq!(
        rendered(WireValue::LocalTime(BoltLocalTime::from(time))),
        "BoltLocalTime { nanoseconds: BoltInteger { value: 1000000005 } }"
    );
}

#[test]
fn a_date_time_is_rendered_by_its_debug_form() {
    let offset = FixedOffset::east_opt(3600).unwrap();
    let instant = DateTime::from_timestamp(1000, 7).unwrap().with_timezone(&offset);
    assert_eq!(
        rendered(WireValue::DateTime(BoltDateTime::from(instant))),
        "BoltDateTime { seconds: BoltInteger { value: 4600 }, \
         nanoseconds: BoltInteger { value: 7 }, \
         tz_offset_seconds: BoltInteger { value: 3600 } }"
    );
}

#[test]
fn a_local_date_time_is_rendered_by_its_debug_form() {
    let instant = DateTime::from_timestamp(86400, 5).unwrap().naive_utc();
    assert_eq!(
        rendered(WireValue::LocalDateTime(BoltLocalDateTime::from(instant))),
        "BoltLocalDateTime { seconds: BoltInteger { value: 86400 }, \
         nanoseconds: BoltInteger { value: 5 } }"
    );
}

#[test]
fn a_date_time_with_a_zone_is_rendered_by_its_debug_form() {
    let instant = DateTime::from_timestamp(60, 0).unwrap().naive_utc();
    assert_eq!(
        rendered(WireValue::DateTimeZoneId(BoltDateTimeZoneId::from((instant, "Europe/Paris")))),
        "BoltDateTimeZoneId { seconds: BoltInteger { value: 60 }, \
         nanoseconds: BoltInteger { value: 0 }, \
         tz_id: BoltString { value: \"Europe/Paris\" } }"
    );
}

#[test]
fn a_duration_is_rendered_by_its_debug_form() {
    let duration = BoltDuration::new(
        BoltInteger::new(1),
        BoltInteger::new(2),
        BoltInteger::new(3),
        BoltInteger::new(4),
    );
    assert_eq!(
        rendered(WireValue::Duration(duration)),
        "BoltDuration { months: BoltInteger { value: 1 }, days: BoltInteger { value: 2 }, \
         seconds: BoltInteger { value: 3 }, nanoseconds: BoltInteger { value: 4 } }"
    );
}

#[test]
fn temporal_values_inside_collections_are_rendered_too() {
    let date = NaiveDate::from_ymd_opt(1970, 1, 2).unwrap();
    let value = WireValue::List(vec![
        WireValue::Date(BoltDate::from(date)),
        WireValue::Mapping(vec![("raw".to_string(), WireValue::Bytes(vec![0xde, 0xad]))]),
    ]);
    assert_eq!(
        ElixirValue::from_bolt(value),
        ElixirValue::List(vec![
            ElixirValue::String("BoltDate { days: BoltInteger { value: 1 } }".to_string()),
            ElixirValue::Mapping(vec![(
                "raw".to_string(),
                ElixirValue::String("b\"\\xde\\xad\"".to_string())
            )]),
        ])
    );
}
