//! The converter: from a decoding failure, a message and details to the
//! structured error of the matching type.

use crate::error::{class_text, structured, StructuredError, StructuredErrorView};
use crate::failure::{render, DecodeFailure};
use crate::kind::ErrorKind;
use crate::variants::{
    InvalidByteError, InvalidLastSymbolError, InvalidLengthError, InvalidPaddingError,
};
use std::collections::BTreeMap;
use vstd::prelude::*;

verus! {

/// Converts the failures of base64 decoding into structured errors.
pub struct Base64DecodeErrorConverter;

impl Base64DecodeErrorConverter {
    /// The name of the typed error that a failure is converted through.
    pub open spec fn label_of(failure: DecodeFailure) -> Seq<char> {
        match failure {
            DecodeFailure::InvalidByte(_, _) => InvalidByteError::spec_label(),
            DecodeFailure::InvalidLength(_) => InvalidLengthError::spec_label(),
            DecodeFailure::InvalidLastSymbol(_, _) => InvalidLastSymbolError::spec_label(),
            DecodeFailure::InvalidPadding => InvalidPaddingError::spec_label(),
        }
    }

    /// The structured error for a failure with this message and these details.
    pub open spec fn converted(
        failure: DecodeFailure,
        message: Seq<char>,
        details: Map<String, serde_value::Value>,
    ) -> StructuredErrorView {
        structured(ErrorKind::Base64Decode, Self::label_of(failure), message, details)
    }

    /// The message of the error: the given text where there is one, else the
    /// failure's own text.
    pub open spec fn message_for(failure: DecodeFailure, text: Option<Seq<char>>) -> Seq<char> {
        match text {
            Some(text) => text,
            None => failure.rendering(),
        }
    }

    /// Converts a failure into the structured error of its type, with the
    /// given message and details.
    pub fn convert(
        failure: &DecodeFailure,
        text: String,
        context: BTreeMap<String, serde_value::Value>,
    ) -> (error: StructuredError)
        ensures
            error.kind == ErrorKind::Base64Decode,
            error.class@ == class_text(ErrorKind::Base64Decode, Self::label_of(*failure)),
            error.message@ == text@,
            error.details@ == context@,
            error@ == Self::converted(*failure, text@, context@),
    {
        match failure {
            DecodeFailure::InvalidByte(_, _) => InvalidByteError::new().with_message(
                text,
            ).with_details(context).into_error(),
            DecodeFailure::InvalidLength(_) => InvalidLengthError::new().with_message(
                text,
            ).with_details(context).into_error(),
            DecodeFailure::InvalidLastSymbol(_, _) => InvalidLastSymbolError::new().with_message(
                text,
            ).with_details(context).into_error(),
            DecodeFailure::InvalidPadding => InvalidPaddingError::new().with_message(
                text,
            ).with_details(context).into_error(),
        }
    }

    /// Converts a failure into the structured error of its type. Without a
    /// text the message is the failure's own text.
    pub fn convert_error(
        failure: &DecodeFailure,
        text: Option<String>,
        context: BTreeMap<String, serde_value::Value>,
    ) -> (error: StructuredError)
        ensures
            error.kind == ErrorKind::Base64Decode,
            error.class@ == class_text(ErrorKind::Base64Decode, Self::label_of(*failure)),
            text matches Some(given) ==> error.message@ == given@,
            text is None ==> error.message@ == failure.rendering(),
            error.details@ == context@,
            error@ == Self::converted(
                *failure,
                Self::message_for(*failure, text.deep_view()),
                context@,
            ),
    {
        let message = match text {
            Some(text) => text,
            None => render(failure),
        };
        Self::convert(failure, message, context)
    }

    /// Whatever the failure, the message and the details, the error is of the
    /// decode kind: its identifier is `Base64-00001` and its status 400.
    pub proof fn lemma_kind_is_fixed(
        failure: DecodeFailure,
        message: Seq<char>,
        details: Map<String, serde_value::Value>,
    )
        ensures
            Self::converted(failure, message, details).kind == ErrorKind::Base64Decode,
            Self::converted(failure, message, details).kind.spec_message_id() == "Base64-00001"@,
            Self::converted(failure, message, details).kind.spec_code() == 400,
    {
    }

    /// The message and the details of the error are those given, unchanged.
    pub proof fn lemma_message_and_details_kept(
        failure: DecodeFailure,
        message: Seq<char>,
        details: Map<String, serde_value::Value>,
    )
        ensures
            Self::converted(failure, message, details).message == message,
            Self::converted(failure, message, details).details == details,
    {
    }

    /// A given text is the message as it stands.
    pub proof fn lemma_given_message(failure: DecodeFailure, text: Seq<char>)
        ensures
            Self::message_for(failure, Some(text)) == text,
    {
    }

    /// Without a text the message is the failure's own text, which is never
    /// empty.
    pub proof fn lemma_default_message(failure: DecodeFailure)
        ensures
            Self::message_for(failure, None) == failure.rendering(),
            Self::message_for(failure, None).len() > 0,
    {
        failure.lemma_rendering_not_empty();
    }
}

} // verus!
