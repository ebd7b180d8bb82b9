//! The failures of base64 decoding, as plain values, and their text.

use vstd::prelude::*;

verus! {

/// The codec's own failure type. Its values are only handed on to
/// [`DecodeFailure::from`].
#[verifier::external_type_specification]
#[verifier::external_body]
pub struct ExDecodeError(base64::DecodeError);

/// Why a text is not valid base64.
#[derive(Clone, Copy, Debug, PartialEq, Eq, Structural)]
pub enum DecodeFailure {
    /// A byte outside the alphabet: its offset in the input and the byte.
    InvalidByte(usize, u8),
    /// The number of symbols in the input cannot be a base64 text's.
    InvalidLength(usize),
    /// The last symbol holds bits that would be discarded: offset and byte.
    InvalidLastSymbol(usize, u8),
    /// The padding is absent, misplaced or not canonical.
    InvalidPadding,
}

/// The failure that a value of the codec's failure type stands for.
pub uninterp spec fn failure_of(error: base64::DecodeError) -> DecodeFailure;

/// Reads a `base64::DecodeError`: the variant and its fields, unchanged. The
/// contract gives that reading its name and claims nothing else.
#[verifier::external_body]
fn classify(error: &base64::DecodeError) -> (failure: DecodeFailure)
    ensures
        failure == failure_of(*error),
{
    match error {
        base64::DecodeError::InvalidByte(offset, byte) => DecodeFailure::InvalidByte(*offset, *byte),
        base64::DecodeError::InvalidLength(len) => DecodeFailure::InvalidLength(*len),
        base64::DecodeError::InvalidLastSymbol(offset, byte) => DecodeFailure::InvalidLastSymbol(*offset, *byte),
        base64::DecodeError::InvalidPadding => DecodeFailure::InvalidPadding,
    }
}

impl From<base64::DecodeError> for DecodeFailure {
    fn from(error: base64::DecodeError) -> (failure: DecodeFailure) {
        classify(&error)
    }
}

impl vstd::std_specs::convert::FromSpecImpl<base64::DecodeError> for DecodeFailure {
    open spec fn obeys_from_spec() -> bool {
        true
    }

    open spec fn from_spec(error: base64::DecodeError) -> DecodeFailure {
        failure_of(error)
    }
}

/// The character of a decimal digit.
pub open spec fn digit(d: nat) -> char
    recommends
        d < 10,
{
    seq!['0', '1', '2', '3', '4', '5', '6', '7', '8', '9'][d as int]
}

/// A number in decimal notation, without sign or leading zeros.
pub open spec fn decimal(n: nat) -> Seq<char>
    decreases n,
{
    if n < 10 {
        seq![digit(n)]
    } else {
        decimal(n / 10).push(digit(n % 10))
    }
}

impl DecodeFailure {
    /// The text of the failure, as the codec words it.
    pub open spec fn rendering(self) -> Seq<char> {
        match self {
            DecodeFailure::InvalidByte(offset, byte) => "Invalid symbol "@ + decimal(byte as nat)
                + ", offset "@ + decimal(offset as nat) + "."@,
            DecodeFailure::InvalidLength(len) => "Invalid input length: "@ + decimal(len as nat),
            DecodeFailure::InvalidLastSymbol(offset, byte) => "Invalid last symbol "@ + decimal(
                byte as nat,
            ) + ", offset "@ + decimal(offset as nat) + "."@,
            DecodeFailure::InvalidPadding => "Invalid padding"@,
        }
    }

    /// No failure has an empty text.
    pub proof fn lemma_rendering_not_empty(self)
        ensures
            self.rendering().len() > 0,
    {
        reveal_strlit("Invalid symbol ");
        reveal_strlit("Invalid input length: ");
        reveal_strlit("Invalid last symbol ");
        reveal_strlit("Invalid padding");
    }
}

/// The codec's `Display` for `base64::DecodeError`, applied to the same
/// failure. The contract spells out the four sentences of that impl, with the
/// numbers as `Display` for integers prints them: in decimal.
#[verifier::external_body]
pub(crate) fn render(failure: &DecodeFailure) -> (text: String)
    ensures
        text@ == failure.rendering(),
{
    match *failure {
        DecodeFailure::InvalidByte(offset, byte) => base64::DecodeError::InvalidByte(offset, byte),
        DecodeFailure::InvalidLength(len) => base64::DecodeError::InvalidLength(len),
        DecodeFailure::InvalidLastSymbol(offset, byte) => base64::DecodeError::InvalidLastSymbol(offset, byte),
        DecodeFailure::InvalidPadding => base64::DecodeError::InvalidPadding,
    }.to_string()
}

} // verus!
