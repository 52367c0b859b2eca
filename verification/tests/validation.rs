use grok_chat::validate::{api_key_usable, validate_image_url, validate_temperature};

#[test]
fn validate_temperature_none_is_ok() {
    assert!(validate_temperature(None).is_ok());
}

#[test]
fn validate_temperature_valid_range() {
    assert!(validate_temperature(Some(0.0f32.to_bits())).is_ok());
    assert!(validate_temperature(Some(1.0f32.to_bits())).is_ok());
    assert!(validate_temperature(Some(2.0f32.to_bits())).is_ok());
}

#[test]
fn validate_temperature_out_of_range() {
    assert!(validate_temperature(Some((-0.1f32).to_bits())).is_err());
    assert!(validate_temperature(Some(2.1f32.to_bits())).is_err());
}

#[test]
fn validate_temperature_nan() {
    assert!(validate_temperature(Some(f32::NAN.to_bits())).is_err());
}

#[test]
fn validate_temperature_infinity() {
    assert!(validate_temperature(Some(f32::INFINITY.to_bits())).is_err());
    assert!(validate_temperature(Some(f32::NEG_INFINITY.to_bits())).is_err());
}

#[test]
fn validate_temperature_negative_zero_is_zero() {
    assert!(validate_temperature(Some((-0.0f32).to_bits())).is_ok());
}

#[test]
fn validate_temperature_just_above_two() {
    let bits = 2.0f32.to_bits() + 1;
    assert!(validate_temperature(Some(bits)).is_err());
}

#[test]
fn validate_temperature_error_reason() {
    let err = validate_temperature(Some((-1.0f32).to_bits())).unwrap_err();
    assert_eq!(err, "temperature must be a finite number between 0.0 and 2.0");
}

#[test]
fn validate_image_url_schemes() {
    assert!(validate_image_url("http://example.com/cat.png").is_ok());
    assert!(validate_image_url("https://example.com/cat.png").is_ok());
    assert!(validate_image_url("ftp://example.com/cat.png").is_err());
    assert!(validate_image_url("example.com/cat.png").is_err());
    let err = validate_image_url("file:///cat.png").unwrap_err();
    assert_eq!(err, "image_url must start with http:// or https://");
}

#[test]
fn api_key_blank_detection() {
    assert!(api_key_usable(&"xai-123".to_string()));
    assert!(!api_key_usable(&"".to_string()));
    assert!(!api_key_usable(&"   \t\n".to_string()));
}
