//! The signature block at the end of an SGX quote.
//!
//! ```text
//! offset  width  field
//!      0     64  signature over the ISV enclave report
//!     64     64  attestation public key
//!    128    384  report of the quoting enclave
//!    512     64  signature over the report of the quoting enclave
//!    576      *  certification data
//! ```

use vstd::prelude::*;
use vstd::pervasive::unreached;
use crate::cast::slice_cast;
use crate::ecdsa::{lemma_normalize_succeeds, normalize_reversed, spec_normalize};
use crate::error::QuoteError;
use crate::report::ReportBody;
use crate::sizes::{PUB_KEY_SIZE, SIG_SIZE};
use crate::verdict::{
    report_answer, signature_answer, spec_first_failure, takes_every_report, takes_every_signature,
    SignatureAlgorithm,
};

verus! {

/// Offset of the signature over the ISV enclave report.
pub const ISV_SIG_OFFSET: usize = 0;

/// Offset of the attestation public key.
pub const ATT_KEY_OFFSET: usize = 64;

/// Offset of the report of the quoting enclave.
pub const QE_REPORT_OFFSET: usize = 128;

/// Offset of the signature over the report of the quoting enclave.
pub const QE_REPORT_SIG_OFFSET: usize = 512;

/// Width of the fields that every signature block has; the certification
/// data begins here.
pub const SIG_DATA_FIXED_SIZE: usize = 576;

/// Width of one half of a signature: R, then S.
pub const SIG_HALF_SIZE: usize = 32;

/// The labels under which the block and its fields are cast.
pub const SIG_DATA_LABEL: &'static str = "sig data";

pub const ISV_SIG_LABEL: &'static str = "isv enclave report sig";

pub const ATT_KEY_LABEL: &'static str = "attestation key";

pub const QE_REPORT_LABEL: &'static str = "qe report";

pub const QE_REPORT_SIG_LABEL: &'static str = "qe report sig";

/// The signature block of a quote. The fixed fields are copies; the
/// certification data is a view into the buffer that was parsed.
#[derive(Debug, Clone, Copy, PartialEq, Eq)]
pub struct SigData<'a> {
    pub isv_report_sig: [u8; SIG_SIZE],
    pub attestation_key: [u8; PUB_KEY_SIZE],
    pub qe_report: ReportBody,
    pub qe_report_sig: [u8; SIG_SIZE],
    pub certification_data: &'a [u8],
}

impl<'a> View for SigData<'a> {
    type V = Seq<u8>;

    /// The bytes of the block, field after field.
    open spec fn view(&self) -> Seq<u8> {
        self.isv_report_sig@ + self.attestation_key@ + self.qe_report@ + self.qe_report_sig@
            + self.certification_data@
    }
}

/// What parsing `region` as a signature block gives: the region itself, or
/// the refusal of a region too short to hold the fixed fields.
pub open spec fn spec_parse_sig_data(region: Seq<u8>) -> Result<Seq<u8>, QuoteError> {
    if region.len() < SIG_DATA_FIXED_SIZE {
        Err(
            QuoteError::LengthMismatch {
                label: SIG_DATA_LABEL,
                expected: SIG_DATA_FIXED_SIZE,
                actual: region.len() as usize,
            },
        )
    } else {
        Ok(region)
    }
}

/// The encoding of a 64-byte signature whose halves R and S are stored
/// least significant byte first.
pub open spec fn spec_signature_der(raw: Seq<u8>) -> Seq<u8> {
    spec_normalize(
        raw.subrange(0, SIG_HALF_SIZE as int).reverse(),
        raw.subrange(SIG_HALF_SIZE as int, SIG_SIZE as int).reverse(),
    )->Ok_0
}

/// A 64-byte signature always has an encoding.
pub proof fn lemma_signature_der_exists(raw: Seq<u8>)
    requires
        raw.len() == SIG_SIZE,
    ensures
        spec_normalize(
            raw.subrange(0, SIG_HALF_SIZE as int).reverse(),
            raw.subrange(SIG_HALF_SIZE as int, SIG_SIZE as int).reverse(),
        ) is Ok,
{
    lemma_normalize_succeeds(
        raw.subrange(0, SIG_HALF_SIZE as int).reverse(),
        raw.subrange(SIG_HALF_SIZE as int, SIG_SIZE as int).reverse(),
    );
}

impl<'a> SigData<'a> {
    /// Each field is the part of `region` at the field's offset.
    pub open spec fn fields_of(&self, region: Seq<u8>) -> bool {
        &&& region.len() >= SIG_DATA_FIXED_SIZE
        &&& self.isv_report_sig@ == region.subrange(ISV_SIG_OFFSET as int, ATT_KEY_OFFSET as int)
        &&& self.attestation_key@ == region.subrange(
            ATT_KEY_OFFSET as int,
            QE_REPORT_OFFSET as int,
        )
        &&& self.qe_report@ == region.subrange(
            QE_REPORT_OFFSET as int,
            QE_REPORT_SIG_OFFSET as int,
        )
        &&& self.qe_report_sig@ == region.subrange(
            QE_REPORT_SIG_OFFSET as int,
            SIG_DATA_FIXED_SIZE as int,
        )
        &&& self.certification_data@ == region.subrange(
            SIG_DATA_FIXED_SIZE as int,
            region.len() as int,
        )
    }

    /// Reads a signature block. The region must hold the fixed fields;
    /// whatever follows them is the certification data.
    pub fn try_from(region: &'a [u8]) -> (res: Result<SigData<'a>, QuoteError>)
        ensures
            match res {
                Ok(sig_data) => spec_parse_sig_data(region@) == Ok::<Seq<u8>, QuoteError>(
                    sig_data@,
                ) && sig_data.fields_of(region@),
                Err(e) => spec_parse_sig_data(region@) == Err::<Seq<u8>, QuoteError>(e),
            },
    {
        let len: usize = region.len();
        if len < SIG_DATA_FIXED_SIZE {
            return Err(
                QuoteError::LengthMismatch {
                    label: SIG_DATA_LABEL,
                    expected: SIG_DATA_FIXED_SIZE,
                    actual: len,
                },
            );
        }
        let isv_report_sig = match slice_cast::<SIG_SIZE>(
            ISV_SIG_LABEL,
            &region[ISV_SIG_OFFSET..ATT_KEY_OFFSET],
        ) {
            Ok(field) => field,
            Err(e) => {
                return Err(e);
            },
        };
        let attestation_key = match slice_cast::<PUB_KEY_SIZE>(
            ATT_KEY_LABEL,
            &region[ATT_KEY_OFFSET..QE_REPORT_OFFSET],
        ) {
            Ok(field) => field,
            Err(e) => {
                return Err(e);
            },
        };
        let qe_report = match ReportBody::parse(
            QE_REPORT_LABEL,
            &region[QE_REPORT_OFFSET..QE_REPORT_SIG_OFFSET],
        ) {
            Ok(field) => field,
            Err(e) => {
                return Err(e);
            },
        };
        let qe_report_sig = match slice_cast::<SIG_SIZE>(
            QE_REPORT_SIG_LABEL,
            &region[QE_REPORT_SIG_OFFSET..SIG_DATA_FIXED_SIZE],
        ) {
            Ok(field) => field,
            Err(e) => {
                return Err(e);
            },
        };
        let certification_data = &region[SIG_DATA_FIXED_SIZE..len];
        let sig_data = SigData {
            isv_report_sig,
            attestation_key,
            qe_report,
            qe_report_sig,
            certification_data,
        };
        assert(sig_data@ =~= region@);
        Ok(sig_data)
    }

    /// The signature over the ISV enclave report, as stored.
    pub fn isv_report_sig(&self) -> (res: &[u8; SIG_SIZE])
        ensures
            *res == self.isv_report_sig,
    {
        &self.isv_report_sig
    }

    /// The attestation public key: X, then Y.
    pub fn attestation_key(&self) -> (res: &[u8; PUB_KEY_SIZE])
        ensures
            *res == self.attestation_key,
    {
        &self.attestation_key
    }

    /// The report of the quoting enclave.
    pub fn qe_report(&self) -> (res: &ReportBody)
        ensures
            *res == self.qe_report,
    {
        &self.qe_report
    }

    /// The signature over the report of the quoting enclave, as stored.
    pub fn qe_report_sig(&self) -> (res: &[u8; SIG_SIZE])
        ensures
            *res == self.qe_report_sig,
    {
        &self.qe_report_sig
    }

    /// The certification data that follows the fixed fields.
    pub fn certification_data(&self) -> (res: &'a [u8])
        ensures
            res@ == self.certification_data@,
    {
        self.certification_data
    }

    /// Whether `res` can be the outcome of verifying this block against
    /// the enclave report `message`: the report verifier was asked about
    /// the report of the quoting enclave, then the raw-signature verifier
    /// was asked whether the stored signature, in its encoding, is a
    /// signature of `message` under the attestation key; `res` is the first
    /// refusal, or success.
    pub open spec fn verified_as<R, S>(
        &self,
        message: Seq<u8>,
        report_verifier: &R,
        raw_verifier: &S,
        res: Result<(), QuoteError>,
    ) -> bool where
        R: Fn(&ReportBody) -> Result<(), QuoteError>,
        S: Fn(&[u8], SignatureAlgorithm, &[u8], &[u8]) -> Result<(), QuoteError>,
     {
        exists|qe: Result<(), QuoteError>, sig: Result<(), QuoteError>|
            {
                &&& res == #[trigger] spec_first_failure(qe, sig)
                &&& report_answer(report_verifier, self.qe_report@, qe)
                &&& qe is Ok ==> signature_answer(
                    raw_verifier,
                    message,
                    SignatureAlgorithm::EcdsaP256Sha256,
                    spec_signature_der(self.isv_report_sig@),
                    self.attestation_key@,
                    sig,
                )
            }
    }

    /// Verifies the block against the ISV enclave report that it signs.
    ///
    /// The report of the quoting enclave goes to the report verifier. Then
    /// the raw-signature verifier decides whether the signature over the
    /// ISV enclave report holds under the attestation key. The first
    /// refusal ends the verification and is handed back as it came.
    pub fn verify<R, S>(
        &self,
        isv_report: &ReportBody,
        report_verifier: &R,
        raw_verifier: &S,
    ) -> (res: Result<(), QuoteError>) where
        R: Fn(&ReportBody) -> Result<(), QuoteError>,
        S: Fn(&[u8], SignatureAlgorithm, &[u8], &[u8]) -> Result<(), QuoteError>,

        requires
            takes_every_report(report_verifier),
            takes_every_signature(raw_verifier),
        ensures
            self.verified_as(isv_report@, report_verifier, raw_verifier, res),
    {
        let qe = report_verifier(&self.qe_report);
        match qe {
            Err(e) => {
                assert(Err::<(), QuoteError>(e) == spec_first_failure(qe, Ok(())));
                Err(e)
            },
            Ok(()) => {
                let der = self.isv_signature_der();
                let sig = raw_verifier(
                    isv_report.as_bytes(),
                    SignatureAlgorithm::EcdsaP256Sha256,
                    der.as_slice(),
                    self.attestation_key.as_slice(),
                );
                assert(sig == spec_first_failure(qe, sig));
                sig
            },
        }
    }

    /// The signature over the ISV enclave report in the encoding that
    /// signature verifiers take.
    pub fn isv_signature_der(&self) -> (res: Vec<u8>)
        ensures
            res@ == spec_signature_der(self.isv_report_sig@),
    {
        signature_der(&self.isv_report_sig)
    }

    /// The signature over the report of the quoting enclave in the encoding
    /// that signature verifiers take.
    pub fn qe_signature_der(&self) -> (res: Vec<u8>)
        ensures
            res@ == spec_signature_der(self.qe_report_sig@),
    {
        signature_der(&self.qe_report_sig)
    }
}

/// Encodes a stored 64-byte signature.
pub fn signature_der(raw: &[u8; SIG_SIZE]) -> (res: Vec<u8>)
    ensures
        res@ == spec_signature_der(raw@),
{
    proof {
        lemma_signature_der_exists(raw@);
    }
    let bytes = raw.as_slice();
    match normalize_reversed(&bytes[0..SIG_HALF_SIZE], &bytes[SIG_HALF_SIZE..SIG_SIZE]) {
        Ok(der) => der,
        Err(_) => unreached(),
    }
}

} // verus!
