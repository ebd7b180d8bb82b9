//! Structured, uniformly coded errors for base64 decoding failures.
//!
//! A decoding failure reported by the `base64` codec is classified into one of
//! four typed errors, all of the `Base64Decode` kind, and turned into a
//! [`StructuredError`] that carries the kind, a message and caller-supplied
//! details.

pub mod converter;
pub mod error;
pub mod failure;
pub mod helper;
pub mod kind;
pub mod variants;

pub use converter::Base64DecodeErrorConverter;
pub use error::StructuredError;
pub use failure::DecodeFailure;
pub use helper::{convert_result, convert_result_minimal, convert_result_with, convert_result_with_text};
pub use kind::ErrorKind;
pub use variants::{InvalidByteError, InvalidLastSymbolError, InvalidLengthError, InvalidPaddingError};
