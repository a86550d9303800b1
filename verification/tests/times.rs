use colette_repository::time::UtcDateTime;

#[test]
fn instants_round_trip_and_render() {
    let t = UtcDateTime::from_timestamp(1_700_000_000, 500).unwrap();
    assert_eq!(t.secs(), 1_700_000_000);
    assert_eq!(t.nanos(), 500);
    assert_eq!(UtcDateTime::from_timestamp(0, 0).unwrap().to_text(), "1970-01-01 00:00:00 UTC");
    assert_eq!(UtcDateTime::from_timestamp(-1, 0).unwrap().to_text(), "1969-12-31 23:59:59 UTC");
}

#[test]
fn unrepresentable_instants_are_refused() {
    assert!(UtcDateTime::from_timestamp(i64::MAX, 0).is_none());
    assert!(UtcDateTime::from_timestamp(0, 2_000_000_000).is_none());
}
