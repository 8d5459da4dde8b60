use gbdt_serve::{is_zero_value, parse, FeatureVector, Payload, ValidationError};

fn payload(year: f32, month: f32, season: f32) -> Payload {
    Payload { year: year.to_bits(), month: month.to_bits(), season: season.to_bits() }
}

#[test]
fn all_zero_payload_is_empty() {
    assert_eq!(parse(payload(0.0, 0.0, 0.0)), Err(ValidationError::EmptyPayload));
}

#[test]
fn negative_zero_counts_as_zero() {
    assert!(is_zero_value((-0.0f32).to_bits()));
    assert_eq!(parse(payload(-0.0, 0.0, -0.0)), Err(ValidationError::EmptyPayload));
}

#[test]
fn one_nonzero_field_is_accepted() {
    let p = payload(0.0, 0.0, 2.0);
    assert_eq!(
        parse(p),
        Ok(FeatureVector { year: 0.0f32.to_bits(), month: 0.0f32.to_bits(), season: 2.0f32.to_bits() })
    );
}

#[test]
fn out_of_range_values_are_not_clamped() {
    let r = parse(payload(-2024.0, 13.5, 99.0)).unwrap();
    assert_eq!(f32::from_bits(r.year), -2024.0);
    assert_eq!(f32::from_bits(r.month), 13.5);
    assert_eq!(f32::from_bits(r.season), 99.0);
}

#[test]
fn nan_is_not_zero() {
    assert!(!is_zero_value(f32::NAN.to_bits()));
    assert!(parse(payload(f32::NAN, 0.0, 0.0)).is_ok());
}

#[test]
fn tiny_value_is_not_zero() {
    assert!(!is_zero_value(f32::from_bits(1).to_bits()));
    assert!(parse(Payload { year: 1, month: 0, season: 0 }).is_ok());
}

#[test]
fn empty_payload_message() {
    assert_eq!(ValidationError::EmptyPayload.message(), "payload is empty");
}
