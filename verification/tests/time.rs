//! Points in time and spans of time.

use usubscription::message::{Decode, Encode, ReadLimits};
use usubscription::status::{UCode, UStatus};
use usubscription::time::{
    protobuf_timestamp_as_chrono_datetime, DateTime, TimeDelta, DATE_TIME_FIRST_SECOND,
    DATE_TIME_LAST_SECOND,
};
use usubscription::timestamp::{
    protobuf_timestamp_as_unix_epoch_milliseconds, unix_epoch_millis_as_protobuf_timestamp,
    Timestamp,
};
use usubscription::wire::DecodeError;

fn millis(seconds: i64, nanos: i32) -> Result<Option<u64>, UStatus> {
    let timestamp = Timestamp { seconds, nanos };
    protobuf_timestamp_as_unix_epoch_milliseconds(Some(&timestamp))
}

fn date_time(seconds: i64, nanos: i32) -> Result<Option<DateTime>, UStatus> {
    let timestamp = Timestamp { seconds, nanos };
    protobuf_timestamp_as_chrono_datetime(Some(&timestamp))
}

fn out_of_range<T>(result: Result<T, UStatus>, what: &str) -> bool {
    result.is_err_and(|e| {
        e.get_code() == UCode::InvalidArgument
            && e.get_message() == format!("invalid timestamp: {what} value out of range")
    })
}

#[test]
fn test_unix_epoch_millis_as_protobuf_timestamp() {
    assert!(
        unix_epoch_millis_as_protobuf_timestamp(Some(1_000)).is_ok_and(|ts| {
            ts == Some(Timestamp {
                seconds: 1,
                nanos: 0,
                ..Default::default()
            })
        })
    );

    assert!(
        unix_epoch_millis_as_protobuf_timestamp(Some(1_234)).is_ok_and(|ts| {
            ts == Some(Timestamp {
                seconds: 1,
                nanos: 234_000_000,
                ..Default::default()
            })
        })
    );

    assert!(unix_epoch_millis_as_protobuf_timestamp(Some(u64::MAX)).is_ok());
    assert!(unix_epoch_millis_as_protobuf_timestamp(None).is_ok_and(|ts| ts.is_none()));
}

#[test]
fn test_protobuf_timestamp_as_unix_epoch_milliseconds() {
    // succeeds for valid timestamp
    assert!(matches!(millis(10, 234_000_000), Ok(Some(10_234))));
    // fails for negative seconds
    assert!(matches!(millis(-10, 234_000_000), Err(UStatus { .. })));
    // fails for nanos exceeding lower bound
    assert!(matches!(millis(10, -1), Err(UStatus { .. })));
    // fails for nanos exceeding upper bound
    assert!(matches!(millis(10, 1_000_000_000), Err(UStatus { .. })));
}

#[test]
fn milliseconds_have_exact_limits() {
    assert_eq!(protobuf_timestamp_as_unix_epoch_milliseconds(None), Ok(None));
    assert_eq!(millis(0, 999_999), Ok(Some(0)));
    assert_eq!(millis(0, 999_999_999), Ok(Some(999)));
    // the largest u64 is 18_446_744_073_709_551_615
    assert_eq!(millis(18_446_744_073_709_551, 615_999_999), Ok(Some(u64::MAX)));
    assert!(out_of_range(millis(18_446_744_073_709_551, 616_000_000), "seconds"));
    assert!(out_of_range(millis(18_446_744_073_709_552, 0), "seconds"));
    assert!(out_of_range(millis(i64::MAX, 0), "seconds"));
    assert!(out_of_range(millis(-1, 999_999_999), "seconds"));
    assert!(out_of_range(millis(-1, -1), "nanos"));
    assert!(out_of_range(millis(i64::MAX, i32::MAX), "nanos"));
}

#[test]
fn milliseconds_survive_a_timestamp() {
    for value in [0, 1, 999, 1_000, 1_234, 1_700_000_000_123, u64::MAX - 1, u64::MAX] {
        let timestamp = unix_epoch_millis_as_protobuf_timestamp(Some(value)).unwrap();
        assert_eq!(
            protobuf_timestamp_as_unix_epoch_milliseconds(timestamp.as_ref()),
            Ok(Some(value))
        );
    }
    assert_eq!(
        unix_epoch_millis_as_protobuf_timestamp(Some(u64::MAX)),
        Ok(Some(Timestamp {
            seconds: 18_446_744_073_709_551,
            nanos: 615_000_000,
        }))
    );
}

#[test]
fn a_timestamp_keeps_its_milliseconds() {
    let value = millis(10, 234_567_890).unwrap();
    assert_eq!(
        unix_epoch_millis_as_protobuf_timestamp(value),
        Ok(Some(Timestamp { seconds: 10, nanos: 234_000_000 }))
    );
}

#[test]
fn dates_have_exact_limits() {
    assert_eq!(DATE_TIME_FIRST_SECOND, chrono::DateTime::<chrono::Utc>::MIN_UTC.timestamp());
    assert_eq!(DATE_TIME_LAST_SECOND, chrono::DateTime::<chrono::Utc>::MAX_UTC.timestamp());
    assert!(DateTime::from_timestamp(DATE_TIME_FIRST_SECOND, 0).is_some());
    assert!(DateTime::from_timestamp(DATE_TIME_FIRST_SECOND - 1, 999_999_999).is_none());
    assert!(DateTime::from_timestamp(DATE_TIME_LAST_SECOND, 999_999_999).is_some());
    assert!(DateTime::from_timestamp(DATE_TIME_LAST_SECOND + 1, 0).is_none());
    assert!(DateTime::from_timestamp(i64::MIN, 0).is_none());
    assert!(DateTime::from_timestamp(i64::MAX, 0).is_none());
}

#[test]
fn only_the_last_second_of_a_minute_can_be_a_leap_second() {
    assert!(DateTime::from_timestamp(59, 1_999_999_999).is_some());
    assert!(DateTime::from_timestamp(59, 2_000_000_000).is_none());
    assert!(DateTime::from_timestamp(58, 1_000_000_000).is_none());
    assert!(DateTime::from_timestamp(60, 1_000_000_000).is_none());
    assert!(DateTime::from_timestamp(-1, 1_000_000_000).is_some());
    assert!(DateTime::from_timestamp(DATE_TIME_LAST_SECOND, 1_000_000_000).is_some());
}

#[test]
fn a_date_keeps_its_numbers() {
    for (seconds, nanos) in [(0, 0), (-1, 1), (1_700_000_000, 999_999_999), (119, 1_500_000_000)] {
        let date_time = DateTime::from_timestamp(seconds, nanos).unwrap();
        assert_eq!(date_time.timestamp(), seconds);
        assert_eq!(date_time.timestamp_subsec_nanos(), nanos);
    }
}

#[test]
fn a_date_is_made_of_a_timestamp() {
    assert_eq!(protobuf_timestamp_as_chrono_datetime(None), Ok(None));
    assert_eq!(date_time(10, 234_000_000), Ok(DateTime::from_timestamp(10, 234_000_000)));
    assert_eq!(date_time(-10, 234_000_000), Ok(DateTime::from_timestamp(-10, 234_000_000)));
    assert!(out_of_range(date_time(10, -1), "nanos"));
    assert!(out_of_range(date_time(59, 1_000_000_000), "nanos"));
    assert!(out_of_range(date_time(DATE_TIME_LAST_SECOND + 1, 0), "seconds"));
    assert!(out_of_range(date_time(DATE_TIME_FIRST_SECOND - 1, 0), "seconds"));
}

#[test]
fn a_span_is_split_into_seconds_and_nanoseconds() {
    for (millis, seconds, nanos) in [
        (0, 0, 0),
        (1_500, 1, 500_000_000),
        (-1_500, -1, -500_000_000),
        (-1, 0, -1_000_000),
        (4_294_967_295, 4_294_967, 295_000_000),
        (i64::MAX, 9_223_372_036_854_775, 807_000_000),
        (-i64::MAX, -9_223_372_036_854_775, -807_000_000),
    ] {
        let span = TimeDelta::milliseconds(millis);
        assert_eq!(span.num_seconds(), seconds);
        assert_eq!(span.subsec_nanos(), nanos);
    }
}

#[test]
fn timestamps_have_the_bytes_of_the_wire_format() {
    let cases: Vec<(Timestamp, Vec<u8>)> = vec![
        (Timestamp { seconds: 0, nanos: 0 }, vec![]),
        (Timestamp { seconds: 1, nanos: 0 }, vec![0x08, 0x01]),
        (Timestamp { seconds: 0, nanos: 300 }, vec![0x10, 0xac, 0x02]),
        (
            Timestamp { seconds: -1, nanos: 1 },
            vec![0x08, 0xff, 0xff, 0xff, 0xff, 0xff, 0xff, 0xff, 0xff, 0xff, 0x01, 0x10, 0x01],
        ),
    ];
    for (timestamp, bytes) in cases {
        assert_eq!(timestamp.encode().unwrap(), bytes);
        assert_eq!(Timestamp::decode(&bytes, ReadLimits::payload()), Ok(timestamp));
    }
    assert_eq!(
        Timestamp::decode(&[0x08], ReadLimits::payload()),
        Err(DecodeError::new("Unexpected EOF"))
    );
    // one less than the least 32-bit number
    let bytes = [0x10, 0xff, 0xff, 0xff, 0xff, 0xf7, 0xff, 0xff, 0xff, 0xff, 0x01];
    assert_eq!(
        Timestamp::decode(&bytes, ReadLimits::payload()),
        Err(DecodeError::new("Value too large for i32: -2147483649"))
    );
}
