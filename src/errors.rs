//! Errors raised while parsing the identifier of a content-addressed blob.

use vstd::prelude::*;

verus! {

/// Relies on hex::FromHexError: the error that hex decoding returns, carried here
/// as an opaque value.
#[verifier::external_type_specification]
#[verifier::external_body]
pub struct ExFromHexError(hex::FromHexError);

/// Why a string is not a valid blob identifier.
#[derive(Debug, PartialEq)]
pub enum BlobIdParseError {
    /// The string holds an uppercase hex digit.
    CannotContainUppercase,
    /// The string decodes to this many bytes instead of 32.
    InvalidLength(usize),
    /// The string is not valid hex.
    FromHexError(hex::FromHexError),
}

impl From<hex::FromHexError> for BlobIdParseError {
    fn from(err: hex::FromHexError) -> (r: BlobIdParseError)
        ensures
            r == BlobIdParseError::FromHexError(err),
    {
        BlobIdParseError::FromHexError(err)
    }
}

impl vstd::std_specs::convert::FromSpecImpl<hex::FromHexError> for BlobIdParseError {
    open spec fn obeys_from_spec() -> bool {
        true
    }

    open spec fn from_spec(err: hex::FromHexError) -> BlobIdParseError {
        BlobIdParseError::FromHexError(err)
    }
}

} // verus!
