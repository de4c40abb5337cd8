use sensorium::Timestamp;

#[test]
fn from_millis_utc_covers_exactly_chronos_range() {
    assert!(Timestamp::from_millis_utc(0).is_some());
    assert!(Timestamp::from_millis_utc(8_210_266_876_799_999).is_some());
    assert!(Timestamp::from_millis_utc(8_210_266_876_800_000).is_none());
    assert!(Timestamp::from_millis_utc(-8_334_601_228_800_000).is_some());
    assert!(Timestamp::from_millis_utc(-8_334_601_228_800_001).is_none());
    assert!(Timestamp::from_millis_utc(i64::MAX).is_none());
    assert!(Timestamp::from_millis_utc(i64::MIN).is_none());
}
