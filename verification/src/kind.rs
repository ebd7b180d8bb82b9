//! The registry of error kinds: a fixed table from a category to its
//! identifier, status and description.

use vstd::prelude::*;

verus! {

/// A category of errors. Every error of a category shares its identifier,
/// status and description.
#[derive(Clone, Copy, Debug, PartialEq, Eq, Structural)]
pub enum ErrorKind {
    /// A base64 text could not be decoded.
    Base64Decode,
    /// Reserved for failures of encoding.
    Base64Encode,
}

impl ErrorKind {
    /// The name of the category.
    pub open spec fn spec_name(self) -> Seq<char> {
        match self {
            ErrorKind::Base64Decode => "Base64Decode"@,
            ErrorKind::Base64Encode => "Base64Encode"@,
        }
    }

    /// The stable identifier of the category.
    pub open spec fn spec_message_id(self) -> Seq<char> {
        match self {
            ErrorKind::Base64Decode => "Base64-00001"@,
            ErrorKind::Base64Encode => "Base64-00002"@,
        }
    }

    /// The status of the category: both are bad requests.
    pub open spec fn spec_code(self) -> u16 {
        400
    }

    /// The label of the category.
    pub open spec fn spec_description(self) -> Seq<char> {
        match self {
            ErrorKind::Base64Decode => "Base64 decode error"@,
            ErrorKind::Base64Encode => "Base64 encode error"@,
        }
    }

    /// Returns the name of the category.
    pub fn name(&self) -> (r: &'static str)
        ensures
            r@ == self.spec_name(),
    {
        match self {
            ErrorKind::Base64Decode => "Base64Decode",
            ErrorKind::Base64Encode => "Base64Encode",
        }
    }

    /// Returns the stable identifier of the category.
    pub fn message_id(&self) -> (r: &'static str)
        ensures
            r@ == self.spec_message_id(),
    {
        match self {
            ErrorKind::Base64Decode => "Base64-00001",
            ErrorKind::Base64Encode => "Base64-00002",
        }
    }

    /// Returns the status of the category.
    pub fn code(&self) -> (r: u16)
        ensures
            r == self.spec_code(),
    {
        400
    }

    /// Returns the label of the category.
    pub fn description(&self) -> (r: &'static str)
        ensures
            r@ == self.spec_description(),
    {
        match self {
            ErrorKind::Base64Decode => "Base64 decode error",
            ErrorKind::Base64Encode => "Base64 encode error",
        }
    }
}

} // verus!
