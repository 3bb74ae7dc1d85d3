//! The SGX enclave report body: a record of 384 bytes.
//!
//! The library reads it only as far as its layout goes. What the measurement
//! fields must hold is the business of the enclave-report verifier that the
//! caller supplies.

use vstd::prelude::*;
use crate::cast::{array_at, slice_cast, spec_slice_cast};
use crate::error::QuoteError;
use crate::sizes::REPORT_SIZE;

verus! {

/// Offset of the enclave measurement.
pub const MRENCLAVE_OFFSET: usize = 64;

/// Offset of the measurement of the enclave's signer.
pub const MRSIGNER_OFFSET: usize = 128;

/// Offset of the data that the enclave put into the report.
pub const REPORT_DATA_OFFSET: usize = 320;

/// An enclave report body, byte for byte as it stood in the evidence.
#[derive(Debug, Clone, Copy, PartialEq, Eq)]
pub struct ReportBody {
    pub bytes: [u8; REPORT_SIZE],
}

impl View for ReportBody {
    type V = Seq<u8>;

    open spec fn view(&self) -> Seq<u8> {
        self.bytes@
    }
}

impl ReportBody {
    /// What parsing `region` as a report body named `label` gives.
    pub open spec fn spec_parse(label: &'static str, region: Seq<u8>) -> Result<Seq<u8>, QuoteError> {
        spec_slice_cast::<REPORT_SIZE>(label, region)
    }

    /// Reads a report body from a region of exactly 384 bytes.
    pub fn parse(label: &'static str, region: &[u8]) -> (res: Result<ReportBody, QuoteError>)
        ensures
            match res {
                Ok(report) => Self::spec_parse(label, region@) == Ok::<Seq<u8>, QuoteError>(
                    report@,
                ),
                Err(e) => Self::spec_parse(label, region@) == Err::<Seq<u8>, QuoteError>(e),
            },
    {
        match slice_cast::<REPORT_SIZE>(label, region) {
            Ok(bytes) => Ok(ReportBody { bytes }),
            Err(e) => Err(e),
        }
    }

    /// The whole record.
    pub fn as_bytes(&self) -> (res: &[u8])
        ensures
            res@ == self@,
            res@.len() == REPORT_SIZE,
    {
        self.bytes.as_slice()
    }

    /// The measurement of the enclave.
    pub fn mrenclave(&self) -> (res: [u8; 32])
        ensures
            res@ == self@.subrange(MRENCLAVE_OFFSET as int, MRENCLAVE_OFFSET + 32),
    {
        array_at::<32>(self.bytes.as_slice(), MRENCLAVE_OFFSET)
    }

    /// The measurement of the key that signed the enclave.
    pub fn mrsigner(&self) -> (res: [u8; 32])
        ensures
            res@ == self@.subrange(MRSIGNER_OFFSET as int, MRSIGNER_OFFSET + 32),
    {
        array_at::<32>(self.bytes.as_slice(), MRSIGNER_OFFSET)
    }

    /// The 64 bytes that the enclave chose to have reported.
    pub fn report_data(&self) -> (res: [u8; 64])
        ensures
            res@ == self@.subrange(REPORT_DATA_OFFSET as int, REPORT_DATA_OFFSET + 64),
    {
        array_at::<64>(self.bytes.as_slice(), REPORT_DATA_OFFSET)
    }
}

/// The report body that holds exactly `bytes`.
pub fn report_body_from_bytes(bytes: [u8; REPORT_SIZE]) -> (res: ReportBody)
    ensures
        res@ == bytes@,
{
    ReportBody { bytes }
}

} // verus!
