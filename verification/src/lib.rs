//! Parsing and verification of remote-attestation evidence: Intel SGX DCAP
//! quotes and AMD SEV-SNP attestation reports.
//!
//! Every byte of evidence is untrusted. It enters typed form only through
//! the exact-length cast in [`cast`], and every offset used afterwards is
//! proved to lie inside the region that was checked.
//!
//! - [`cast`]: the exact-length cast and the little-endian readers.
//! - [`error`]: the failure kinds.
//! - [`report`]: the SGX enclave report body.
//! - [`header`]: the quote header and the version gate.
//! - [`signature`]: the signature block of a quote.
//! - [`quote`]: the quote, its versioned body, and its verification.
//! - [`snp`]: the SNP attestation report.
//! - [`ecdsa`]: from stored signature numbers to the encoding that
//!   signature verifiers take.
//! - [`verdict`]: the verifiers that the caller supplies, and how their
//!   answers are put together.
//!
//! The library does no elliptic-curve arithmetic and reads no certificate.
//! Whether a signature holds and whether an enclave report is acceptable is
//! decided by the caller's verifiers; which bytes they are asked about, in
//! which order, and what becomes of their answers is decided here.

pub mod cast;
pub mod ecdsa;
pub mod error;
pub mod header;
pub mod quote;
pub mod report;
pub mod signature;
pub mod sizes;
pub mod snp;
pub mod verdict;
