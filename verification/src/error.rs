//! The structured error: what a failure becomes for logs and responses.

use crate::kind::ErrorKind;
use std::collections::BTreeMap;
use vstd::prelude::*;

verus! {

/// A value of caller-supplied details. The library stores such values and hands
/// them on; it never looks inside one.
#[verifier::external_type_specification]
#[verifier::external_body]
pub struct ExValue(serde_value::Value);

/// An error with its kind, the class that names its type, a message for
/// people and details for diagnosis.
#[derive(Clone, Debug, PartialEq)]
pub struct StructuredError {
    /// The category of the error.
    pub kind: ErrorKind,
    /// The side, the kind and the type of the error, joined by `::`.
    pub class: String,
    /// The message for people.
    pub message: String,
    /// Context that the caller supplied, by key.
    pub details: BTreeMap<String, serde_value::Value>,
}

/// A structured error as a mathematical value.
pub struct StructuredErrorView {
    pub kind: ErrorKind,
    pub class: Seq<char>,
    pub message: Seq<char>,
    pub details: Map<String, serde_value::Value>,
}

impl View for StructuredError {
    type V = StructuredErrorView;

    open spec fn view(&self) -> StructuredErrorView {
        StructuredErrorView {
            kind: self.kind,
            class: self.class@,
            message: self.message@,
            details: self.details@,
        }
    }
}

/// The side that a status blames: the client below 500, the server from there.
pub open spec fn side_text(code: u16) -> Seq<char> {
    if code <= 499 {
        "Client"@
    } else {
        "Server"@
    }
}

/// The class of an error: side, kind and type, joined by `::`.
pub open spec fn class_text(kind: ErrorKind, label: Seq<char>) -> Seq<char> {
    side_text(kind.spec_code()) + "::"@ + kind.spec_name() + "::"@ + label
}

/// The error of the given kind and type with this message and these details.
pub open spec fn structured(
    kind: ErrorKind,
    label: Seq<char>,
    message: Seq<char>,
    details: Map<String, serde_value::Value>,
) -> StructuredErrorView {
    StructuredErrorView { kind, class: class_text(kind, label), message, details }
}

/// The class that `cdumay_core::ErrorBuilder::build` gives an error made by
/// `ErrorBuilder::new` from a `cdumay_core::ErrorKind` and a label, read with
/// `Error::class`. The contract says what `build` formats: the side of the
/// code (`ErrorKind::side`: the client up to 499, the server above), the
/// kind's name and the label, joined by `::`.
#[verifier::external_body]
fn framework_class(name: &'static str, code: u16, description: &'static str, label: &str) -> (class: String)
    ensures
        class@ == side_text(code) + "::"@ + name@ + "::"@ + label@,
{
    cdumay_core::ErrorBuilder::new(cdumay_core::ErrorKind(name, code, description), label)
        .build()
        .class()
        .to_string()
}

impl StructuredError {
    /// Makes the error of the given kind and label.
    pub fn new(
        kind: ErrorKind,
        label: &str,
        message: String,
        details: BTreeMap<String, serde_value::Value>,
    ) -> (error: StructuredError)
        ensures
            error@ == structured(kind, label@, message@, details@),
    {
        let class = framework_class(kind.name(), kind.code(), kind.description(), label);
        StructuredError { kind, class, message, details }
    }

    /// Returns the stable identifier of the error's kind.
    pub fn message_id(&self) -> (r: &'static str)
        ensures
            r@ == self.kind.spec_message_id(),
    {
        self.kind.message_id()
    }

    /// Returns the status of the error's kind.
    pub fn status(&self) -> (r: u16)
        ensures
            r == self.kind.spec_code(),
    {
        self.kind.code()
    }
}

} // verus!
