//! The two kinds of failure: a request that cannot be built, and JSON that
//! cannot be decoded.

use vstd::prelude::*;

verus! {

/// Why a request could not be built. Detected locally, before anything is
/// sent.
#[derive(Debug, Clone, Copy, PartialEq, Eq, Structural)]
pub enum ValidationError {
    /// The prompt was never set.
    MissingPrompt,
    /// The prompt was set to the empty string.
    EmptyPrompt,
}

/// Why a payload could not be decoded.
#[derive(Debug, Clone, Copy, PartialEq, Eq, Structural)]
pub enum CodecError {
    /// The bytes are not one JSON document.
    Syntax,
    /// A JSON object was expected and another value was found.
    NotAnObject,
    /// A required member is absent.
    MissingField,
    /// A member, or a token, holds a value of the wrong JSON type.
    WrongType,
    /// A string is not one of the tokens of the enum.
    UnknownToken,
}

} // verus!
