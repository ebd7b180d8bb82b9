use base64::{engine::general_purpose, Engine as _};
use cdumay_error_base64::{Base64DecodeErrorConverter, DecodeFailure};
use std::collections::BTreeMap;

#[test]
fn test_invalid_base64_decode_error() {
    // Attempt to decode an invalid Base64 string
    let invalid_data = "!!! not base64 !!!";
    let result = general_purpose::STANDARD.decode(invalid_data);

    // Ensure that decoding fails
    assert!(result.is_err());

    let err = result.unwrap_err();
    let ctx = BTreeMap::new();

    // Convert the base64 error into a structured application error
    let custom = Base64DecodeErrorConverter::convert_error(
        &DecodeFailure::from(err),
        Some("Failed to decode base64".to_string()),
        ctx,
    );

    // Validate the custom error kind and message
    assert_eq!(custom.kind.message_id(), "Base64-00001");
    assert_eq!(custom.message, "Failed to decode base64");
}

#[test]
fn test_valid_base64_decoding() {
    // Encode "hello world" into base64
    let valid_data = general_purpose::STANDARD.encode(b"hello world");

    // Attempt to decode it back
    let decoded = general_purpose::STANDARD.decode(&valid_data);

    // Ensure decoding succeeds and the content is correct
    assert!(decoded.is_ok());
    assert_eq!(decoded.unwrap(), b"hello world");
}

#[test]
fn invalid_text_fails_on_its_first_byte() {
    let err = general_purpose::STANDARD.decode("!!! not base64 !!!").unwrap_err();
    assert_eq!(DecodeFailure::from(err), DecodeFailure::InvalidByte(0, b'!'));
}

#[test]
fn every_codec_failure_keeps_its_variant_and_fields() {
    assert_eq!(
        DecodeFailure::from(base64::DecodeError::InvalidByte(17, 42)),
        DecodeFailure::InvalidByte(17, 42)
    );
    assert_eq!(
        DecodeFailure::from(base64::DecodeError::InvalidLength(5)),
        DecodeFailure::InvalidLength(5)
    );
    assert_eq!(
        DecodeFailure::from(base64::DecodeError::InvalidLastSymbol(3, 66)),
        DecodeFailure::InvalidLastSymbol(3, 66)
    );
    assert_eq!(
        DecodeFailure::from(base64::DecodeError::InvalidPadding),
        DecodeFailure::InvalidPadding
    );
}

#[test]
fn codec_reports_each_kind_of_failure() {
    let length = general_purpose::STANDARD.decode("A").unwrap_err();
    assert!(matches!(DecodeFailure::from(length), DecodeFailure::InvalidLength(_)));
    let last = general_purpose::STANDARD.decode("AB==").unwrap_err();
    assert!(matches!(DecodeFailure::from(last), DecodeFailure::InvalidLastSymbol(1, b'B')));
    let padding = general_purpose::STANDARD.decode("AA").unwrap_err();
    assert_eq!(DecodeFailure::from(padding), DecodeFailure::InvalidPadding);
}
