use candy_ass::timestamp::Timestamp;

#[test]
fn test_from_unix_timestamp_millis_and_back() {
    let millis = 1_682_544_000_000_i64; // 2023-05-01T00:00:00.000Z
    let dt = Timestamp::from_unix_timestamp_millis(millis).unwrap();
    let roundtrip = dt.unix_timestamp_millis();
    assert_eq!(millis, roundtrip);

    let millis = 1_682_544_000_123_i64; // 2023-05-01T00:00:00.123Z
    let dt = Timestamp::from_unix_timestamp_millis(millis).unwrap();
    let roundtrip = dt.unix_timestamp_millis();
    assert_eq!(millis, roundtrip);
}

#[test]
fn test_from_unix_timestamp_millis_epoch() {
    let millis = 0_i64;
    let dt = Timestamp::from_unix_timestamp_millis(millis).unwrap();
    assert_eq!(dt.unix_timestamp(), 0);
    assert_eq!(dt.millisecond(), 0);
    assert_eq!(dt.unix_timestamp_millis(), 0);
}

#[test]
fn test_invalid_timestamp() {
    let millis = i64::MAX;
    let result = Timestamp::from_unix_timestamp_millis(millis);
    assert!(result.is_err());
}

#[test]
fn seconds_and_milliseconds_decompose_negative_instants() {
    let dt = Timestamp::from_unix_timestamp_millis(-1).unwrap();
    assert_eq!(dt.unix_timestamp(), -1);
    assert_eq!(dt.millisecond(), 999);
    assert_eq!(dt.unix_timestamp() * 1000 + dt.millisecond() as i64, -1);
}
