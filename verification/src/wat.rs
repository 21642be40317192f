//! The statuses of the conversion of the text format to the binary format.

use vstd::prelude::*;
use crate::error::Error;

verus! {

/// Why a text could not be converted, as the converter tells causes apart.
#[derive(Clone, Copy, Debug, PartialEq, Eq, Structural)]
pub enum WatErrorKind {
    /// The result held an unexpected null byte.
    Nul,
    /// A binary module could not be read.
    Deserialize,
    /// The text could not be parsed.
    Parse,
    /// A module could not be written as text.
    WriteText,
    /// A module written as text was not UTF-8.
    NonUtf8Result,
    /// The module could not be written in the binary format.
    WriteBinary,
    /// A name in the module could not be resolved.
    ResolveNames,
    /// The module is not valid.
    Validate,
}

/// The status that a cause of a failed conversion is reported as.
pub open spec fn wat_status(kind: WatErrorKind) -> Error {
    match kind {
        WatErrorKind::Parse => Error::ParseError,
        WatErrorKind::WriteBinary => Error::WriteBinaryError,
        WatErrorKind::ResolveNames => Error::ResolveNamesError,
        WatErrorKind::Validate => Error::ValidateError,
        _ => Error::UnknownError,
    }
}

/// Reduces the cause of a failed conversion to a status. A cause that
/// belongs to no step of the conversion from text is `UnknownError`.
pub fn wat_error(kind: WatErrorKind) -> (status: Error)
    ensures
        status == wat_status(kind),
{
    match kind {
        WatErrorKind::Parse => Error::ParseError,
        WatErrorKind::WriteBinary => Error::WriteBinaryError,
        WatErrorKind::ResolveNames => Error::ResolveNamesError,
        WatErrorKind::Validate => Error::ValidateError,
        _ => Error::UnknownError,
    }
}

} // verus!
