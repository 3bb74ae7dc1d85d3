//! Widths and offsets of the SGX quote layout, in bytes.

use vstd::prelude::*;

verus! {

/// Width of one ECDSA P-256 signature: R then S, 32 bytes each.
pub const SIG_SIZE: usize = 64;

/// Width of one ECDSA P-256 public key: X then Y, 32 bytes each.
pub const PUB_KEY_SIZE: usize = 64;

/// Width of the quote header.
pub const QUOTE_HEADER_SIZE: usize = 48;

/// Width of an enclave report body.
pub const REPORT_SIZE: usize = 384;

/// Width of a `u16` field.
pub const U16_SIZE: usize = 2;

/// Width of a `u32` field.
pub const U32_SIZE: usize = 4;

/// Width of the field that declares the length of the signature block.
pub const QUOTE_SIG_DATA_LEN_SIZE: usize = 4;

/// Offset at which the signature block begins.
pub const QUOTE_SIG_START: usize = 436;

} // verus!
