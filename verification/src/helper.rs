//! The helper that wraps the outcome of a fallible codec operation: a success
//! passes through, a failure becomes its structured error.

use crate::converter::Base64DecodeErrorConverter;
use crate::error::{StructuredError, StructuredErrorView};
use crate::failure::DecodeFailure;
use std::collections::BTreeMap;
use vstd::prelude::*;

verus! {

/// What the helper makes of an outcome: a success stays as it is, a failure
/// becomes the converter's error for it.
pub open spec fn wrapped<T>(
    result: Result<T, DecodeFailure>,
    text: Option<Seq<char>>,
    details: Map<String, serde_value::Value>,
) -> Result<T, StructuredErrorView> {
    match result {
        Ok(value) => Ok(value),
        Err(failure) => Err(
            Base64DecodeErrorConverter::converted(
                failure,
                Base64DecodeErrorConverter::message_for(failure, text),
                details,
            ),
        ),
    }
}

/// An outcome of the helper with its error as a mathematical value.
pub open spec fn outcome<T>(result: Result<T, StructuredError>) -> Result<T, StructuredErrorView> {
    match result {
        Ok(value) => Ok(value),
        Err(error) => Err(error@),
    }
}

/// Wraps an outcome. On failure the error has the given details, and the given
/// text as its message or, without one, the failure's own text.
pub fn convert_result_with<T>(
    result: Result<T, DecodeFailure>,
    context: BTreeMap<String, serde_value::Value>,
    text: Option<String>,
) -> (wrapped_result: Result<T, StructuredError>)
    ensures
        result matches Ok(value) ==> wrapped_result == Ok::<T, StructuredError>(value),
        result is Err ==> wrapped_result is Err,
        outcome(wrapped_result) == wrapped(result, text.deep_view(), context@),
{
    match result {
        Ok(value) => Ok(value),
        Err(failure) => Err(Base64DecodeErrorConverter::convert_error(&failure, text, context)),
    }
}

/// Wraps an outcome: on failure the error has the given message and details.
pub fn convert_result<T>(
    result: Result<T, DecodeFailure>,
    context: BTreeMap<String, serde_value::Value>,
    text: &str,
) -> (wrapped_result: Result<T, StructuredError>)
    ensures
        result matches Ok(value) ==> wrapped_result == Ok::<T, StructuredError>(value),
        result matches Err(failure) ==> wrapped_result matches Err(error) && error@
            == Base64DecodeErrorConverter::converted(failure, text@, context@),
        outcome(wrapped_result) == wrapped(result, Some(text@), context@),
{
    convert_result_with(result, context, Some(text.to_owned()))
}

/// Wraps an outcome: on failure the error has the given message and no
/// details.
pub fn convert_result_with_text<T>(result: Result<T, DecodeFailure>, text: &str) -> (wrapped_result:
    Result<T, StructuredError>)
    ensures
        result matches Ok(value) ==> wrapped_result == Ok::<T, StructuredError>(value),
        result matches Err(failure) ==> wrapped_result matches Err(error) && error@
            == Base64DecodeErrorConverter::converted(failure, text@, Map::empty()),
        outcome(wrapped_result) == wrapped(result, Some(text@), Map::empty()),
{
    convert_result_with(result, BTreeMap::new(), Some(text.to_owned()))
}

/// Wraps an outcome: on failure the error has the failure's own text as its
/// message and no details.
pub fn convert_result_minimal<T>(result: Result<T, DecodeFailure>) -> (wrapped_result: Result<
    T,
    StructuredError,
>)
    ensures
        result matches Ok(value) ==> wrapped_result == Ok::<T, StructuredError>(value),
        result matches Err(failure) ==> wrapped_result matches Err(error) && error@
            == Base64DecodeErrorConverter::converted(failure, failure.rendering(), Map::empty()),
        outcome(wrapped_result) == wrapped(result, None, Map::empty()),
{
    convert_result_with(result, BTreeMap::new(), None)
}

/// A success passes through the helper unchanged, whatever the message and the
/// details.
pub proof fn lemma_success_unchanged<T>(
    value: T,
    text: Option<Seq<char>>,
    details: Map<String, serde_value::Value>,
)
    ensures
        wrapped(Ok::<T, DecodeFailure>(value), text, details) == Ok::<T, StructuredErrorView>(value),
{
}

/// On a failure the helper gives the error that the converter gives for the
/// same failure, message and details; its kind is the converter's whatever
/// the message.
pub proof fn lemma_failure_as_converted<T>(
    failure: DecodeFailure,
    text: Option<Seq<char>>,
    details: Map<String, serde_value::Value>,
)
    ensures
        wrapped(Err::<T, DecodeFailure>(failure), text, details) == Err::<T, StructuredErrorView>(
            Base64DecodeErrorConverter::converted(
                failure,
                Base64DecodeErrorConverter::message_for(failure, text),
                details,
            ),
        ),
        forall|message: Seq<char>|
            wrapped(Err::<T, DecodeFailure>(failure), text, details)->Err_0.kind
                == (#[trigger] Base64DecodeErrorConverter::converted(
                failure,
                message,
                details,
            )).kind,
{
}

} // verus!
