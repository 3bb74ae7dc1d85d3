//! The failure kinds of parsing and verification.

use vstd::prelude::*;

verus! {

/// Why a piece of evidence was rejected.
///
/// No failure is recovered from inside the library: the first one met is
/// handed to the caller as it is.
#[derive(Debug, Clone, PartialEq, Eq)]
pub enum QuoteError {
    /// A region handed to a cast does not have the exact width of the record.
    LengthMismatch { label: &'static str, expected: usize, actual: usize },
    /// The declared length of the signature block reaches past the buffer.
    BufferTooShort,
    /// The header declares a version other than the implemented one.
    UnsupportedVersion(u16),
    /// A raw big number cannot be encoded as a signature integer.
    InvalidInteger,
    /// The raw-signature verifier refused the signature.
    SignatureInvalid,
    /// A consistency field of the header or of a report has a wrong value.
    StructuralCheckFailed,
}

} // verus!
