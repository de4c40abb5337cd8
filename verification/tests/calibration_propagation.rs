use sensorium::{
    AppId, Calibration, CalibrationStatus, PrimitiveKind, PrivacyTier, Provenance, SensorId,
    Tagged, Timestamp,
};

#[test]
fn only_calibrated_status_is_trusted() {
    assert!(Calibration::calibrated_now().is_trusted());
    assert!(!Calibration::uncalibrated().is_trusted());
    assert!(!Calibration::synthetic().is_trusted());
    assert!(!Calibration::failed().is_trusted());
}

#[test]
fn only_failed_status_is_unusable() {
    assert!(CalibrationStatus::Calibrated.is_usable());
    assert!(CalibrationStatus::Uncalibrated.is_usable());
    assert!(CalibrationStatus::Synthetic.is_usable());
    assert!(!CalibrationStatus::Failed.is_usable());
}

#[test]
fn provenance_calibration_matches_calibration_status() {
    let sensor = SensorId::new();
    let now = Timestamp::now();

    let calibrated = Provenance::new(
        sensor,
        now,
        Calibration::calibrated_now(),
        PrivacyTier::Public,
        PrimitiveKind::Reference,
    );
    let uncalibrated = Provenance::new(
        sensor,
        now,
        Calibration::uncalibrated(),
        PrivacyTier::Public,
        PrimitiveKind::Reference,
    );

    assert!(calibrated.is_calibrated());
    assert!(!uncalibrated.is_calibrated());
}

#[test]
fn tagged_is_calibrated_is_provenance_passthrough() {
    let sensor = SensorId::new();
    let app = AppId::new("com.test.example").expect("non-empty id");

    let provenance = Provenance::new(
        sensor,
        Timestamp::now(),
        Calibration::uncalibrated(),
        PrivacyTier::Public,
        PrimitiveKind::Reference,
    );
    let tagged = Tagged::new(app, provenance);

    assert!(!tagged.is_calibrated());
    assert_eq!(tagged.value.as_str(), "com.test.example");
}

#[test]
fn tagged_map_preserves_provenance_pointer() {
    let sensor = SensorId::new();
    let provenance = Provenance::new(
        sensor,
        Timestamp::now(),
        Calibration::synthetic(),
        PrivacyTier::Public,
        PrimitiveKind::Reference,
    );
    let original = Tagged::new(42_u32, provenance);

    let mapped = original.map(|n| n * 2);

    assert_eq!(mapped.value, 84);
    assert_eq!(mapped.provenance.sensor, sensor);
    assert_eq!(mapped.provenance.calibration.status, CalibrationStatus::Synthetic);
}

#[test]
fn calibration_aggregation_is_conservative() {
    let sensor = SensorId::new();
    let now = Timestamp::now();
    let mk = |cal: Calibration| -> Provenance {
        Provenance::new(sensor, now, cal, PrivacyTier::Public, PrimitiveKind::Reference)
    };

    let stream: Vec<Provenance> = vec![
        mk(Calibration::calibrated_now()),
        mk(Calibration::calibrated_now()),
        mk(Calibration::uncalibrated()),
    ];

    let all_calibrated = stream.iter().all(Provenance::is_calibrated);
    assert!(!all_calibrated, "any uncalibrated value taints the aggregate");
}

#[test]
fn calibrated_now_records_timestamp() {
    let cal = Calibration::calibrated_now();
    assert_eq!(cal.status, CalibrationStatus::Calibrated);
    assert!(
        cal.last_calibrated_at.is_some(),
        "calibrated_now must record when calibration happened"
    );
}

#[test]
fn uncalibrated_has_no_timestamp() {
    let cal = Calibration::uncalibrated();
    assert_eq!(cal.status, CalibrationStatus::Uncalibrated);
    assert_eq!(cal.last_calibrated_at, None);
}

#[test]
fn tagged_as_ref_keeps_value_and_provenance() {
    let provenance = Provenance::new(
        SensorId::from_u128(7),
        Timestamp::from_millis_utc(1_000).expect("in range"),
        Calibration::failed(),
        PrivacyTier::Sensitive,
        PrimitiveKind::State,
    );
    let tagged = Tagged::new(5_u8, provenance);
    let borrowed = tagged.as_ref();
    assert_eq!(*borrowed.value, 5);
    assert_eq!(borrowed.provenance, provenance);
    assert!(!borrowed.is_calibrated());
}

#[test]
fn fresh_sensor_ids_are_version_seven_and_differ() {
    let a = SensorId::new();
    let b = SensorId::new();
    assert_ne!(a, b);
    assert_eq!((a.as_u128() >> 76) & 0xF, 7);
    assert_eq!((a.as_u128() >> 62) & 0x3, 2);
    assert_eq!(SensorId::from_u128(0x1234).as_u128(), 0x1234);
}

#[test]
fn timestamp_millis_round_trip_and_range() {
    let t = Timestamp::from_millis_utc(1_700_000_000_123).expect("in range");
    assert_eq!(t.as_millis_utc(), 1_700_000_000_123);
    let before_epoch = Timestamp::from_millis_utc(-1_500).expect("in range");
    assert_eq!(before_epoch.as_millis_utc(), -1_500);
    assert!(Timestamp::from_millis_utc(i64::MAX).is_none());
    assert!(Timestamp::now().as_millis_utc() > 1_600_000_000_000);
}

#[test]
fn timestamp_parts_round_trip() {
    let t = Timestamp::from_unix_parts(1_700_000_000, 123_456_789).expect("valid parts");
    assert_eq!(t.unix_secs(), 1_700_000_000);
    assert_eq!(t.subsec_nanos(), 123_456_789);
    assert_eq!(t.as_millis_utc(), 1_700_000_000_123);
    assert!(Timestamp::from_unix_parts(0, 1_000_000_000).is_none());
    assert!(Timestamp::from_unix_parts(i64::MAX, 0).is_none());
    let earlier = Timestamp::from_unix_parts(5, 0).unwrap();
    let later = Timestamp::from_unix_parts(5, 1).unwrap();
    assert!(earlier < later);
}

#[test]
fn now_reads_back_through_milliseconds() {
    let now = Timestamp::now();
    let back = Timestamp::from_millis_utc(now.as_millis_utc()).expect("now is representable");
    assert_eq!(back.as_millis_utc(), now.as_millis_utc());
}
