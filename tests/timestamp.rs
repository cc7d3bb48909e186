use trash::timestamp::Timestamp;

#[test]
fn deletion_date_has_microseconds_and_a_utc_offset() {
    let t = Timestamp::from_unix(1_093_991_528, 0).unwrap();
    assert_eq!(t.deletion_date(), "2004-08-31T22:32:08.000000+00:00");
    let epoch = Timestamp::from_unix_nanos(0);
    assert_eq!(epoch.deletion_date(), "1970-01-01T00:00:00.000000+00:00");
    let t = Timestamp::from_unix(0, 123_456_789).unwrap();
    assert_eq!(t.deletion_date(), "1970-01-01T00:00:00.123456+00:00");
    let before = Timestamp::from_unix_nanos(-1_000_000_000);
    assert_eq!(before.deletion_date(), "1969-12-31T23:59:59.000000+00:00");
}

#[test]
fn from_unix_counts_nanoseconds() {
    let t = Timestamp::from_unix(2, 5).unwrap();
    assert_eq!(t.as_unix_nanos(), 2_000_000_005);
    let t = Timestamp::from_unix(-9_223_372_037, 999_999_999).unwrap();
    assert_eq!(t.as_unix_nanos(), -9_223_372_036_000_000_001);
    assert_eq!(Timestamp::from_unix(0, 1_000_000_000), None);
    assert_eq!(Timestamp::from_unix(9_223_372_037, 0), None);
    assert_eq!(Timestamp::from_unix(-9_223_372_038, 0), None);
    assert_eq!(Timestamp::from_unix_nanos(7).as_unix_nanos(), 7);
}
