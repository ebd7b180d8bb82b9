use cdumay_error_base64::{
    ErrorKind, InvalidByteError, InvalidLastSymbolError, InvalidLengthError, InvalidPaddingError,
    StructuredError,
};
use std::collections::BTreeMap;

fn one_detail(key: &str, value: &str) -> BTreeMap<String, serde_value::Value> {
    let mut details = BTreeMap::new();
    details.insert(key.to_string(), serde_value::Value::String(value.to_string()));
    details
}

#[test]
fn registry_holds_both_kinds() {
    assert_eq!(ErrorKind::Base64Decode.name(), "Base64Decode");
    assert_eq!(ErrorKind::Base64Decode.message_id(), "Base64-00001");
    assert_eq!(ErrorKind::Base64Decode.code(), 400);
    assert_eq!(ErrorKind::Base64Decode.description(), "Base64 decode error");

    assert_eq!(ErrorKind::Base64Encode.name(), "Base64Encode");
    assert_eq!(ErrorKind::Base64Encode.message_id(), "Base64-00002");
    assert_eq!(ErrorKind::Base64Encode.code(), 400);
    assert_eq!(ErrorKind::Base64Encode.description(), "Base64 encode error");

    assert_ne!(ErrorKind::Base64Decode.message_id(), ErrorKind::Base64Encode.message_id());
}

#[test]
fn new_variants_are_empty_and_of_the_decode_kind() {
    let error = InvalidByteError::new();
    assert_eq!(error.kind(), ErrorKind::Base64Decode);
    assert_eq!(error.message, "");
    assert!(error.details.is_empty());

    let error = InvalidLengthError::new();
    assert_eq!(error.kind(), ErrorKind::Base64Decode);
    assert_eq!(error.message, "");
    assert!(error.details.is_empty());

    let error = InvalidLastSymbolError::new();
    assert_eq!(error.kind(), ErrorKind::Base64Decode);
    assert_eq!(error.message, "");
    assert!(error.details.is_empty());

    let error = InvalidPaddingError::new();
    assert_eq!(error.kind(), ErrorKind::Base64Decode);
    assert_eq!(error.message, "");
    assert!(error.details.is_empty());
}

#[test]
fn with_message_overwrites_the_message() {
    let error = InvalidByteError::new()
        .with_details(one_detail("a", "1"))
        .with_message("first".to_string())
        .with_message("second".to_string());
    assert_eq!(error.message, "second");
    assert_eq!(error.details, one_detail("a", "1"));

    let error = InvalidLengthError::new().with_message("first".to_string()).with_message(String::new());
    assert_eq!(error.message, "");

    let error = InvalidLastSymbolError::new().with_message("last".to_string());
    assert_eq!(error.message, "last");

    let error = InvalidPaddingError::new().with_message("padding".to_string());
    assert_eq!(error.message, "padding");
}

#[test]
fn with_details_replaces_the_details_as_a_whole() {
    let error = InvalidByteError::new()
        .with_message("kept".to_string())
        .with_details(one_detail("a", "1"))
        .with_details(one_detail("b", "2"));
    assert_eq!(error.details, one_detail("b", "2"));
    assert!(!error.details.contains_key("a"));
    assert_eq!(error.message, "kept");

    let error = InvalidLengthError::new().with_details(one_detail("a", "1")).with_details(BTreeMap::new());
    assert!(error.details.is_empty());

    let error = InvalidLastSymbolError::new().with_details(one_detail("c", "3"));
    assert_eq!(error.details, one_detail("c", "3"));

    let error = InvalidPaddingError::new().with_details(one_detail("d", "4"));
    assert_eq!(error.details, one_detail("d", "4"));
}

#[test]
fn variants_convert_with_what_was_set() {
    let error: StructuredError = InvalidByteError::new()
        .with_message("byte".to_string())
        .with_details(one_detail("k", "v"))
        .into();
    assert_eq!(
        error,
        StructuredError {
            kind: ErrorKind::Base64Decode,
            class: "Client::Base64Decode::InvalidByteError".to_string(),
            message: "byte".to_string(),
            details: one_detail("k", "v"),
        }
    );

    let error = InvalidLengthError::new().with_message("length".to_string()).into_error();
    assert_eq!(error.class, "Client::Base64Decode::InvalidLengthError");
    assert_eq!(error.message, "length");
    assert!(error.details.is_empty());
    assert_eq!(StructuredError::from(InvalidLengthError::new().with_message("length".to_string())), error);

    let error = StructuredError::from(InvalidLastSymbolError::new());
    assert_eq!(error.class, "Client::Base64Decode::InvalidLastSymbolError");
    assert_eq!(error.kind, ErrorKind::Base64Decode);
    assert_eq!(error.message, "");
    assert_eq!(InvalidLastSymbolError::new().into_error(), error);

    let error = StructuredError::from(InvalidPaddingError::new().with_details(one_detail("k", "v")));
    assert_eq!(error.class, "Client::Base64Decode::InvalidPaddingError");
    assert_eq!(error.details, one_detail("k", "v"));
    assert_eq!(InvalidPaddingError::new().with_details(one_detail("k", "v")).into_error(), error);
}

#[test]
fn structured_error_of_either_kind() {
    let error = StructuredError::new(ErrorKind::Base64Encode, "Custom", "m".to_string(), one_detail("k", "v"));
    assert_eq!(error.kind, ErrorKind::Base64Encode);
    assert_eq!(error.class, "Client::Base64Encode::Custom");
    assert_eq!(error.message_id(), "Base64-00002");
    assert_eq!(error.status(), 400);
    assert_eq!(error.message, "m");
    assert_eq!(error.details, one_detail("k", "v"));
}
