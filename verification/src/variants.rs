//! The four typed errors of base64 decoding, one for each way in which a text
//! can fail to be base64. All are of the kind `Base64Decode`.

use crate::error::{structured, StructuredError, StructuredErrorView};
use crate::kind::ErrorKind;
use std::collections::BTreeMap;
use vstd::prelude::*;

verus! {

/// The input holds a byte outside the alphabet.
#[derive(Clone, Debug)]
pub struct InvalidByteError {
    /// The message for people.
    pub message: String,
    /// Context that the caller supplied, by key.
    pub details: BTreeMap<String, serde_value::Value>,
}

impl InvalidByteError {
    /// The kind that every error of this type has.
    pub open spec fn spec_kind() -> ErrorKind {
        ErrorKind::Base64Decode
    }

    /// The name of this type.
    pub open spec fn spec_label() -> Seq<char> {
        "InvalidByteError"@
    }

    /// The structured error that this one converts to.
    pub open spec fn converted(self) -> StructuredErrorView {
        structured(Self::spec_kind(), Self::spec_label(), self.message@, self.details@)
    }

    /// Makes the error with an empty message and no details.
    pub fn new() -> (error: InvalidByteError)
        ensures
            error.message@ == Seq::<char>::empty(),
            error.details@ == Map::<String, serde_value::Value>::empty(),
    {
        InvalidByteError { message: String::new(), details: BTreeMap::new() }
    }

    /// Returns the kind that every error of this type has.
    pub fn kind(&self) -> (kind: ErrorKind)
        ensures
            kind == Self::spec_kind(),
    {
        ErrorKind::Base64Decode
    }

    /// Replaces the message, whatever it was, and keeps the details.
    pub fn with_message(self, message: String) -> (error: InvalidByteError)
        ensures
            error.message@ == message@,
            error.details@ == self.details@,
    {
        InvalidByteError { message, details: self.details }
    }

    /// Replaces the details as a whole, whatever they were, and keeps the
    /// message.
    pub fn with_details(self, details: BTreeMap<String, serde_value::Value>) -> (error: InvalidByteError)
        ensures
            error.message@ == self.message@,
            error.details@ == details@,
    {
        InvalidByteError { message: self.message, details }
    }

    /// Converts into the structured error of the same kind, message and
    /// details, whose class names this type.
    pub fn into_error(self) -> (error: StructuredError)
        ensures
            error@ == self.converted(),
    {
        StructuredError::new(ErrorKind::Base64Decode, "InvalidByteError", self.message, self.details)
    }
}

impl From<InvalidByteError> for StructuredError {
    fn from(error: InvalidByteError) -> (structured_error: StructuredError)
        ensures
            structured_error@ == error.converted(),
    {
        error.into_error()
    }
}

/// The conversion is stated on `from` itself, over the view of its result.
impl vstd::std_specs::convert::FromSpecImpl<InvalidByteError> for StructuredError {
    open spec fn obeys_from_spec() -> bool {
        false
    }

    open spec fn from_spec(error: InvalidByteError) -> StructuredError {
        arbitrary()
    }
}

/// The input has a length that no base64 text has.
#[derive(Clone, Debug)]
pub struct InvalidLengthError {
    /// The message for people.
    pub message: String,
    /// Context that the caller supplied, by key.
    pub details: BTreeMap<String, serde_value::Value>,
}

impl InvalidLengthError {
    /// The kind that every error of this type has.
    pub open spec fn spec_kind() -> ErrorKind {
        ErrorKind::Base64Decode
    }

    /// The name of this type.
    pub open spec fn spec_label() -> Seq<char> {
        "InvalidLengthError"@
    }

    /// The structured error that this one converts to.
    pub open spec fn converted(self) -> StructuredErrorView {
        structured(Self::spec_kind(), Self::spec_label(), self.message@, self.details@)
    }

    /// Makes the error with an empty message and no details.
    pub fn new() -> (error: InvalidLengthError)
        ensures
            error.message@ == Seq::<char>::empty(),
            error.details@ == Map::<String, serde_value::Value>::empty(),
    {
        InvalidLengthError { message: String::new(), details: BTreeMap::new() }
    }

    /// Returns the kind that every error of this type has.
    pub fn kind(&self) -> (kind: ErrorKind)
        ensures
            kind == Self::spec_kind(),
    {
        ErrorKind::Base64Decode
    }

    /// Replaces the message, whatever it was, and keeps the details.
    pub fn with_message(self, message: String) -> (error: InvalidLengthError)
        ensures
            error.message@ == message@,
            error.details@ == self.details@,
    {
        InvalidLengthError { message, details: self.details }
    }

    /// Replaces the details as a whole, whatever they were, and keeps the
    /// message.
    pub fn with_details(self, details: BTreeMap<String, serde_value::Value>) -> (error: InvalidLengthError)
        ensures
            error.message@ == self.message@,
            error.details@ == details@,
    {
        InvalidLengthError { message: self.message, details }
    }

    /// Converts into the structured error of the same kind, message and
    /// details, whose class names this type.
    pub fn into_error(self) -> (error: StructuredError)
        ensures
            error@ == self.converted(),
    {
        StructuredError::new(ErrorKind::Base64Decode, "InvalidLengthError", self.message, self.details)
    }
}

impl From<InvalidLengthError> for StructuredError {
    fn from(error: InvalidLengthError) -> (structured_error: StructuredError)
        ensures
            structured_error@ == error.converted(),
    {
        error.into_error()
    }
}

/// The conversion is stated on `from` itself, over the view of its result.
impl vstd::std_specs::convert::FromSpecImpl<InvalidLengthError> for StructuredError {
    open spec fn obeys_from_spec() -> bool {
        false
    }

    open spec fn from_spec(error: InvalidLengthError) -> StructuredError {
        arbitrary()
    }
}

/// The last symbol of the input holds bits that would be discarded.
#[derive(Clone, Debug)]
pub struct InvalidLastSymbolError {
    /// The message for people.
    pub message: String,
    /// Context that the caller supplied, by key.
    pub details: BTreeMap<String, serde_value::Value>,
}

impl InvalidLastSymbolError {
    /// The kind that every error of this type has.
    pub open spec fn spec_kind() -> ErrorKind {
        ErrorKind::Base64Decode
    }

    /// The name of this type.
    pub open spec fn spec_label() -> Seq<char> {
        "InvalidLastSymbolError"@
    }

    /// The structured error that this one converts to.
    pub open spec fn converted(self) -> StructuredErrorView {
        structured(Self::spec_kind(), Self::spec_label(), self.message@, self.details@)
    }

    /// Makes the error with an empty message and no details.
    pub fn new() -> (error: InvalidLastSymbolError)
        ensures
            error.message@ == Seq::<char>::empty(),
            error.details@ == Map::<String, serde_value::Value>::empty(),
    {
        InvalidLastSymbolError { message: String::new(), details: BTreeMap::new() }
    }

    /// Returns the kind that every error of this type has.
    pub fn kind(&self) -> (kind: ErrorKind)
        ensures
            kind == Self::spec_kind(),
    {
        ErrorKind::Base64Decode
    }

    /// Replaces the message, whatever it was, and keeps the details.
    pub fn with_message(self, message: String) -> (error: InvalidLastSymbolError)
        ensures
            error.message@ == message@,
            error.details@ == self.details@,
    {
        InvalidLastSymbolError { message, details: self.details }
    }

    /// Replaces the details as a whole, whatever they were, and keeps the
    /// message.
    pub fn with_details(self, details: BTreeMap<String, serde_value::Value>) -> (error: InvalidLastSymbolError)
        ensures
            error.message@ == self.message@,
            error.details@ == details@,
    {
        InvalidLastSymbolError { message: self.message, details }
    }

    /// Converts into the structured error of the same kind, message and
    /// details, whose class names this type.
    pub fn into_error(self) -> (error: StructuredError)
        ensures
            error@ == self.converted(),
    {
        StructuredError::new(ErrorKind::Base64Decode, "InvalidLastSymbolError", self.message, self.details)
    }
}

impl From<InvalidLastSymbolError> for StructuredError {
    fn from(error: InvalidLastSymbolError) -> (structured_error: StructuredError)
        ensures
            structured_error@ == error.converted(),
    {
        error.into_error()
    }
}

/// The conversion is stated on `from` itself, over the view of its result.
impl vstd::std_specs::convert::FromSpecImpl<InvalidLastSymbolError> for StructuredError {
    open spec fn obeys_from_spec() -> bool {
        false
    }

    open spec fn from_spec(error: InvalidLastSymbolError) -> StructuredError {
        arbitrary()
    }
}

/// The padding of the input is absent, misplaced or not canonical.
#[derive(Clone, Debug)]
pub struct InvalidPaddingError {
    /// The message for people.
    pub message: String,
    /// Context that the caller supplied, by key.
    pub details: BTreeMap<String, serde_value::Value>,
}

impl InvalidPaddingError {
    /// The kind that every error of this type has.
    pub open spec fn spec_kind() -> ErrorKind {
        ErrorKind::Base64Decode
    }

    /// The name of this type.
    pub open spec fn spec_label() -> Seq<char> {
        "InvalidPaddingError"@
    }

    /// The structured error that this one converts to.
    pub open spec fn converted(self) -> StructuredErrorView {
        structured(Self::spec_kind(), Self::spec_label(), self.message@, self.details@)
    }

    /// Makes the error with an empty message and no details.
    pub fn new() -> (error: InvalidPaddingError)
        ensures
            error.message@ == Seq::<char>::empty(),
            error.details@ == Map::<String, serde_value::Value>::empty(),
    {
        InvalidPaddingError { message: String::new(), details: BTreeMap::new() }
    }

    /// Returns the kind that every error of this type has.
    pub fn kind(&self) -> (kind: ErrorKind)
        ensures
            kind == Self::spec_kind(),
    {
        ErrorKind::Base64Decode
    }

    /// Replaces the message, whatever it was, and keeps the details.
    pub fn with_message(self, message: String) -> (error: InvalidPaddingError)
        ensures
            error.message@ == message@,
            error.details@ == self.details@,
    {
        InvalidPaddingError { message, details: self.details }
    }

    /// Replaces the details as a whole, whatever they were, and keeps the
    /// message.
    pub fn with_details(self, details: BTreeMap<String, serde_value::Value>) -> (error: InvalidPaddingError)
        ensures
            error.message@ == self.message@,
            error.details@ == details@,
    {
        InvalidPaddingError { message: self.message, details }
    }

    /// Converts into the structured error of the same kind, message and
    /// details, whose class names this type.
    pub fn into_error(self) -> (error: StructuredError)
        ensures
            error@ == self.converted(),
    {
        StructuredError::new(ErrorKind::Base64Decode, "InvalidPaddingError", self.message, self.details)
    }
}

impl From<InvalidPaddingError> for StructuredError {
    fn from(error: InvalidPaddingError) -> (structured_error: StructuredError)
        ensures
            structured_error@ == error.converted(),
    {
        error.into_error()
    }
}

/// The conversion is stated on `from` itself, over the view of its result.
impl vstd::std_specs::convert::FromSpecImpl<InvalidPaddingError> for StructuredError {
    open spec fn obeys_from_spec() -> bool {
        false
    }

    open spec fn from_spec(error: InvalidPaddingError) -> StructuredError {
        arbitrary()
    }
}

} // verus!
