//! The two verifiers that the caller supplies, and how their answers are
//! put together.
//!
//! The library does no elliptic-curve arithmetic and holds no policy on
//! what an enclave may measure to. It decides which bytes each verifier is
//! asked about and in what order, and hands the first refusal back
//! unchanged.

use vstd::prelude::*;
use crate::error::QuoteError;
use crate::report::ReportBody;

verus! {

/// The algorithm that a raw signature is to be checked with.
#[derive(Debug, Clone, Copy, PartialEq, Eq, Structural)]
pub enum SignatureAlgorithm {
    /// ECDSA over P-256 with SHA-256: the signatures inside an SGX quote.
    EcdsaP256Sha256,
    /// ECDSA over P-384 with SHA-384: the signature of an SNP report.
    EcdsaP384Sha384,
}

/// The outcome of two steps of which the second is taken only after the
/// first went well: the first failure, or success.
pub open spec fn spec_first_failure(first: Result<(), QuoteError>, second: Result<(), QuoteError>)
    -> Result<(), QuoteError> {
    match first {
        Err(e) => Err(e),
        Ok(()) => second,
    }
}

/// The outcome of two steps in their order.
pub fn first_failure(first: Result<(), QuoteError>, second: Result<(), QuoteError>) -> (res: Result<
    (),
    QuoteError,
>)
    ensures
        res == spec_first_failure(first, second),
{
    match first {
        Err(e) => Err(e),
        Ok(()) => second,
    }
}

/// Whether the report verifier can be asked about every report.
pub open spec fn takes_every_report<R: Fn(&ReportBody) -> Result<(), QuoteError>>(
    verifier: &R,
) -> bool {
    forall|report: &ReportBody| call_requires(verifier, (report,))
}

/// Whether the raw-signature verifier can be asked about every message,
/// signature and key.
pub open spec fn takes_every_signature<
    S: Fn(&[u8], SignatureAlgorithm, &[u8], &[u8]) -> Result<(), QuoteError>,
>(verifier: &S) -> bool {
    forall|message: &[u8], algorithm: SignatureAlgorithm, signature: &[u8], signer: &[u8]|
        call_requires(verifier, (message, algorithm, signature, signer))
}

/// Whether `answer` is what the report verifier said of the report that
/// holds `report`.
pub open spec fn report_answer<R: Fn(&ReportBody) -> Result<(), QuoteError>>(
    verifier: &R,
    report: Seq<u8>,
    answer: Result<(), QuoteError>,
) -> bool {
    exists|asked: &ReportBody| asked@ == report && call_ensures(verifier, (asked,), answer)
}

/// Whether `answer` is what the raw-signature verifier said when it was
/// asked whether `signature` is a signature of `message` under `signer`.
pub open spec fn signature_answer<
    S: Fn(&[u8], SignatureAlgorithm, &[u8], &[u8]) -> Result<(), QuoteError>,
>(
    verifier: &S,
    message: Seq<u8>,
    algorithm: SignatureAlgorithm,
    signature: Seq<u8>,
    signer: Seq<u8>,
    answer: Result<(), QuoteError>,
) -> bool {
    exists|m: &[u8], s: &[u8], k: &[u8]|
        m@ == message && s@ == signature && k@ == signer && call_ensures(
            verifier,
            (m, algorithm, s, k),
            answer,
        )
}

} // verus!
