//! Field validation of the two records, and the numeric carrier.

use croptrack::date::Date;
use croptrack::errors::AppError;
use croptrack::models::batch::Batch;
use croptrack::models::crop::Crop;
use croptrack::numeric::Numeric64;
use croptrack::text::signed_decimal_string;

fn date(y: u32, m: u8, d: u8) -> Date {
    Date { year: y, month: m, day: d }
}

fn num(v: f64) -> Numeric64 {
    Numeric64::from_bits(v.to_bits())
}

fn today() -> Date {
    date(2025, 6, 15)
}

fn sample_crop() -> Crop {
    Crop::new(
        None,
        "Soy".to_string(),
        num(10.5),
        "organic".to_string(),
        date(2024, 1, 10),
        None,
        &today(),
    )
    .unwrap()
}

#[test]
fn numeric_carrier_keeps_bits_and_classifies_signs() {
    for v in [0.0f64, -0.0, 10.5, -1.25, f64::INFINITY, f64::NEG_INFINITY] {
        assert_eq!(Numeric64::from_bits(v.to_bits()).to_bits(), v.to_bits());
        assert_eq!(Numeric64::from_bits(v.to_bits()).is_non_negative(), v >= 0.0);
    }
    assert!(!num(f64::NAN).is_non_negative());
    assert!(!Numeric64::from_bits(f64::NAN.to_bits() | (1u64 << 63)).is_non_negative());
    // Negative zero compares equal to zero, so it passes the range rule.
    assert!(num(-0.0).is_non_negative());
}

#[test]
fn signed_decimal_matches_std_rendering() {
    for v in [0i64, 7, -7, 42, -42, 1000, i64::MAX, i64::MIN] {
        assert_eq!(signed_decimal_string(v), format!("{v}"));
    }
}

#[test]
fn crop_accepts_valid_fields() {
    let crop = sample_crop();
    assert_eq!(*crop.id(), None);
    assert_eq!(crop.name(), "Soy");
    assert_eq!(crop.area().to_bits(), 10.5f64.to_bits());
    assert_eq!(crop.cultivation(), "organic");
    assert_eq!(crop.planted_at(), date(2024, 1, 10));
    assert_eq!(*crop.harvested_at(), None);
}

#[test]
fn crop_rejects_bad_fields() {
    let long = "x".repeat(256);
    let t = today();
    let err = Crop::new(None, long.clone(), num(1.0), "o".to_string(), date(2024, 1, 10), None, &t)
        .unwrap_err();
    assert_eq!(err.message(), "name: length exceeds 255 characters");
    assert_eq!(err.status_code(), 422);

    let err = Crop::new(None, "Soy".to_string(), num(-1.0), "o".to_string(), date(2024, 1, 10), None, &t)
        .unwrap_err();
    assert_eq!(err.message(), "area: must be non-negative");

    let err = Crop::new(None, "Soy".to_string(), num(1.0), long, date(2024, 1, 10), None, &t)
        .unwrap_err();
    assert_eq!(err.message(), "cultivation: length exceeds 255 characters");

    let err = Crop::new(None, "Soy".to_string(), num(1.0), "o".to_string(), date(9999, 1, 1), None, &t)
        .unwrap_err();
    assert_eq!(err.message(), "plantedAt: must be a date in the past or present");

    let err = Crop::new(None, "Soy".to_string(), num(1.0), "o".to_string(), date(2024, 2, 30), None, &t)
        .unwrap_err();
    assert_eq!(err.message(), "plantedAt: must be a date in the past or present");

    let err = Crop::new(
        None,
        "Soy".to_string(),
        num(1.0),
        "o".to_string(),
        date(2024, 1, 10),
        Some(date(9999, 1, 1)),
        &t,
    )
    .unwrap_err();
    assert_eq!(err.message(), "harvestedAt: must be a date in the past or present");
    assert!(matches!(err, AppError::ValidationError(_)));

    // A 255-character name is still accepted.
    let ok = Crop::new(None, "y".repeat(255), num(0.0), "o".to_string(), date(2024, 1, 10), None, &t);
    assert!(ok.is_ok());
}

#[test]
fn batch_accepts_valid_fields_and_rejects_bad_ones() {
    let t = today();
    let batch = Batch::new(
        None,
        sample_crop(),
        Some("A".to_string()),
        None,
        "bag".to_string(),
        num(100.0),
        None,
        date(2024, 2, 1),
        &t,
    )
    .unwrap();
    assert_eq!(*batch.id(), None);
    assert_eq!(batch.crop().name(), "Soy");
    assert_eq!(batch.classification().clone(), Some("A".to_string()));
    assert!(batch.processing().is_none());
    assert_eq!(batch.packing(), "bag");
    assert_eq!(batch.quantity().to_bits(), 100.0f64.to_bits());
    assert!(batch.tracking_code().is_none());
    assert_eq!(batch.date(), date(2024, 2, 1));

    let long = "x".repeat(256);
    let err = Batch::new(
        None,
        sample_crop(),
        Some(long.clone()),
        None,
        "bag".to_string(),
        num(100.0),
        None,
        date(2024, 2, 1),
        &t,
    )
    .unwrap_err();
    assert_eq!(err.message(), "classification: length exceeds 255 characters");

    let err = Batch::new(
        None,
        sample_crop(),
        None,
        Some(long.clone()),
        "bag".to_string(),
        num(100.0),
        None,
        date(2024, 2, 1),
        &t,
    )
    .unwrap_err();
    assert_eq!(err.message(), "processing: length exceeds 255 characters");

    let err = Batch::new(
        None,
        sample_crop(),
        None,
        None,
        long,
        num(100.0),
        None,
        date(2024, 2, 1),
        &t,
    )
    .unwrap_err();
    assert_eq!(err.message(), "packing: length exceeds 255 characters");

    let err = Batch::new(
        None,
        sample_crop(),
        None,
        None,
        "bag".to_string(),
        num(-0.5),
        None,
        date(2024, 2, 1),
        &t,
    )
    .unwrap_err();
    assert_eq!(err.message(), "quantity: must be non-negative");

    let err = Batch::new(
        None,
        sample_crop(),
        None,
        None,
        "bag".to_string(),
        num(100.0),
        None,
        date(9999, 2, 1),
        &t,
    )
    .unwrap_err();
    assert_eq!(err.message(), "date: must be a date in the past or present");
}

#[test]
fn error_classes_map_to_their_status_codes() {
    assert_eq!(AppError::ValidationError("v".to_string()).status_code(), 422);
    assert_eq!(AppError::NotFound("n".to_string()).status_code(), 404);
    assert_eq!(AppError::BadRequest("b".to_string()).status_code(), 400);
    assert_eq!(AppError::InternalServer.status_code(), 500);
    assert_eq!(AppError::InternalServer.message(), "An internal error occurred");
    assert_eq!(AppError::NotFound("gone".to_string()).to_error_response().message(), "gone");
}
