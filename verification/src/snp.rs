//! The AMD SEV-SNP attestation report: a record of `0x4A0` bytes.
//!
//! ```text
//! offset  width  field
//!  0x000      4  version
//!  0x004      4  guest security version
//!  0x008      8  policy
//!  0x010     16  family id
//!  0x020     16  image id
//!  0x030      4  VMPL
//!  0x034      4  signature algorithm
//!  0x038      8  platform version
//!  0x040      8  platform info
//!  0x048      4  author key enabled
//!  0x04C      4  reserved
//!  0x050     64  report data
//!  0x090     48  measurement
//!  0x0C0     32  host data
//!  0x0E0     48  id key digest
//!  0x110     48  author key digest
//!  0x140     32  report id
//!  0x160     32  report id of the migration agent
//!  0x180      8  reported TCB
//!  0x188     24  reserved
//!  0x1A0     64  chip id
//!  0x1E0    192  reserved
//!  0x2A0    512  signature: R, then S, `0x48` bytes each, then padding
//! ```
//!
//! All integers are little-endian, the two numbers of the signature too.
//! Everything before the signature is what was signed, the reserved parts
//! included.

use vstd::prelude::*;
use vstd::pervasive::unreached;
use vstd::slice::slice_to_vec;
use crate::cast::{
    array_at, slice_cast, spec_slice_cast, spec_u32_le, spec_u64_le, u32_le, u64_le,
};
use crate::ecdsa::{lemma_normalize_succeeds, normalize_reversed, spec_normalize};
use crate::error::QuoteError;
use crate::verdict::{signature_answer, takes_every_signature, SignatureAlgorithm};

verus! {

/// Width of the report.
pub const SNP_REPORT_SIZE: usize = 0x4A0;

/// Offset of the signature, and so the width of what was signed.
pub const SNP_SIGNATURE_OFFSET: usize = 0x2A0;

/// Width of one number of the signature.
pub const SNP_BIGNUM_SIZE: usize = 0x48;

/// Offset of the second number of the signature.
pub const SNP_SIGNATURE_S_OFFSET: usize = 0x2E8;

/// Offset of the padding behind the two numbers of the signature.
pub const SNP_SIGNATURE_END: usize = 0x330;

pub const SNP_VERSION_OFFSET: usize = 0x000;

pub const SNP_GUEST_SVN_OFFSET: usize = 0x004;

pub const SNP_POLICY_OFFSET: usize = 0x008;

pub const SNP_FAMILY_ID_OFFSET: usize = 0x010;

pub const SNP_IMAGE_ID_OFFSET: usize = 0x020;

pub const SNP_VMPL_OFFSET: usize = 0x030;

pub const SNP_SIG_ALGO_OFFSET: usize = 0x034;

pub const SNP_PLAT_VERSION_OFFSET: usize = 0x038;

pub const SNP_PLAT_INFO_OFFSET: usize = 0x040;

pub const SNP_AUTHOR_KEY_EN_OFFSET: usize = 0x048;

pub const SNP_REPORT_DATA_OFFSET: usize = 0x050;

pub const SNP_MEASUREMENT_OFFSET: usize = 0x090;

pub const SNP_HOST_DATA_OFFSET: usize = 0x0C0;

pub const SNP_ID_KEY_DIGEST_OFFSET: usize = 0x0E0;

pub const SNP_AUTHOR_KEY_DIGEST_OFFSET: usize = 0x110;

pub const SNP_REPORT_ID_OFFSET: usize = 0x140;

pub const SNP_REPORT_ID_MA_OFFSET: usize = 0x160;

pub const SNP_REPORTED_TCB_OFFSET: usize = 0x180;

pub const SNP_CHIP_ID_OFFSET: usize = 0x1A0;

/// The label under which the report is cast.
pub const SNP_REPORT_LABEL: &'static str = "snp report";

/// An attestation report, byte for byte as it stood in the evidence.
#[derive(Debug, Clone, Copy, PartialEq, Eq)]
pub struct SnpReportData {
    pub bytes: [u8; SNP_REPORT_SIZE],
}

impl View for SnpReportData {
    type V = Seq<u8>;

    open spec fn view(&self) -> Seq<u8> {
        self.bytes@
    }
}

/// What parsing `region` as a report gives.
pub open spec fn spec_parse_snp_report(region: Seq<u8>) -> Result<Seq<u8>, QuoteError> {
    spec_slice_cast::<SNP_REPORT_SIZE>(SNP_REPORT_LABEL, region)
}

/// The part of a report that was signed.
pub open spec fn spec_snp_message(report: Seq<u8>) -> Seq<u8> {
    report.subrange(0, SNP_SIGNATURE_OFFSET as int)
}

/// The first number of the signature, most significant byte first.
pub open spec fn spec_snp_r(report: Seq<u8>) -> Seq<u8> {
    report.subrange(SNP_SIGNATURE_OFFSET as int, SNP_SIGNATURE_S_OFFSET as int).reverse()
}

/// The second number of the signature, most significant byte first.
pub open spec fn spec_snp_s(report: Seq<u8>) -> Seq<u8> {
    report.subrange(SNP_SIGNATURE_S_OFFSET as int, SNP_SIGNATURE_END as int).reverse()
}

/// The signature of a report in the encoding that signature verifiers take.
pub open spec fn spec_snp_signature(report: Seq<u8>) -> Seq<u8> {
    spec_normalize(spec_snp_r(report), spec_snp_s(report))->Ok_0
}

/// The signature of a report always has an encoding.
pub proof fn lemma_snp_signature_exists(report: Seq<u8>)
    requires
        report.len() == SNP_REPORT_SIZE,
    ensures
        spec_normalize(spec_snp_r(report), spec_snp_s(report)) is Ok,
{
    lemma_normalize_succeeds(spec_snp_r(report), spec_snp_s(report));
}

impl SnpReportData {
    /// Reads a report from a buffer of exactly `0x4A0` bytes.
    pub fn try_from(region: &[u8]) -> (res: Result<SnpReportData, QuoteError>)
        ensures
            match res {
                Ok(report) => spec_parse_snp_report(region@) == Ok::<Seq<u8>, QuoteError>(
                    report@,
                ),
                Err(e) => spec_parse_snp_report(region@) == Err::<Seq<u8>, QuoteError>(e),
            },
    {
        match slice_cast::<SNP_REPORT_SIZE>(SNP_REPORT_LABEL, region) {
            Ok(bytes) => Ok(SnpReportData { bytes }),
            Err(e) => Err(e),
        }
    }

    /// The whole report.
    pub fn as_bytes(&self) -> (res: &[u8])
        ensures
            res@ == self@,
            res@.len() == SNP_REPORT_SIZE,
    {
        self.bytes.as_slice()
    }

    /// The bytes that were signed: everything before the signature, with
    /// nothing left out and nothing changed.
    pub fn get_message(&self) -> (res: Vec<u8>)
        ensures
            res@ == spec_snp_message(self@),
    {
        let bytes = self.bytes.as_slice();
        slice_to_vec(&bytes[0..SNP_SIGNATURE_OFFSET])
    }

    /// The signature in the encoding that signature verifiers take: each of
    /// the two stored numbers turned most significant byte first, then both
    /// encoded as one pair of integers.
    pub fn get_signature(&self) -> (res: Vec<u8>)
        ensures
            res@ == spec_snp_signature(self@),
    {
        proof {
            lemma_snp_signature_exists(self@);
        }
        let bytes = self.bytes.as_slice();
        match normalize_reversed(
            &bytes[SNP_SIGNATURE_OFFSET..SNP_SIGNATURE_S_OFFSET],
            &bytes[SNP_SIGNATURE_S_OFFSET..SNP_SIGNATURE_END],
        ) {
            Ok(der) => der,
            Err(_) => unreached(),
        }
    }

    /// Has the raw-signature verifier decide whether the report's signature
    /// holds under `signer`, the public key or certificate of the chip.
    /// The verifier's answer is handed back as it came.
    pub fn verify<S>(&self, signer: &[u8], raw_verifier: &S) -> (res: Result<(), QuoteError>) where
        S: Fn(&[u8], SignatureAlgorithm, &[u8], &[u8]) -> Result<(), QuoteError>,

        requires
            takes_every_signature(raw_verifier),
        ensures
            signature_answer(
                raw_verifier,
                spec_snp_message(self@),
                SignatureAlgorithm::EcdsaP384Sha384,
                spec_snp_signature(self@),
                signer@,
                res,
            ),
    {
        let message = self.get_message();
        let signature = self.get_signature();
        raw_verifier(
            message.as_slice(),
            SignatureAlgorithm::EcdsaP384Sha384,
            signature.as_slice(),
            signer,
        )
    }
}

impl SnpReportData {
    /// The version of the report format.
    pub fn version(&self) -> (res: u32)
        ensures
            res == spec_u32_le(self@.subrange(SNP_VERSION_OFFSET as int, SNP_VERSION_OFFSET + 4)),
    {
        u32_le(&array_at::<4>(self.bytes.as_slice(), SNP_VERSION_OFFSET))
    }

    /// The security version of the guest.
    pub fn guest_svn(&self) -> (res: u32)
        ensures
            res == spec_u32_le(self@.subrange(SNP_GUEST_SVN_OFFSET as int, SNP_GUEST_SVN_OFFSET + 4)),
    {
        u32_le(&array_at::<4>(self.bytes.as_slice(), SNP_GUEST_SVN_OFFSET))
    }

    /// The policy that the guest runs under.
    pub fn policy(&self) -> (res: u64)
        ensures
            res == spec_u64_le(self@.subrange(SNP_POLICY_OFFSET as int, SNP_POLICY_OFFSET + 8)),
    {
        u64_le(&array_at::<8>(self.bytes.as_slice(), SNP_POLICY_OFFSET))
    }

    /// The family id that the guest owner chose.
    pub fn family_id(&self) -> (res: [u8; 16])
        ensures
            res@ == self@.subrange(SNP_FAMILY_ID_OFFSET as int, SNP_FAMILY_ID_OFFSET + 16),
    {
        array_at::<16>(self.bytes.as_slice(), SNP_FAMILY_ID_OFFSET)
    }

    /// The image id that the guest owner chose.
    pub fn image_id(&self) -> (res: [u8; 16])
        ensures
            res@ == self@.subrange(SNP_IMAGE_ID_OFFSET as int, SNP_IMAGE_ID_OFFSET + 16),
    {
        array_at::<16>(self.bytes.as_slice(), SNP_IMAGE_ID_OFFSET)
    }

    /// The privilege level that asked for the report.
    pub fn vmpl(&self) -> (res: u32)
        ensures
            res == spec_u32_le(self@.subrange(SNP_VMPL_OFFSET as int, SNP_VMPL_OFFSET + 4)),
    {
        u32_le(&array_at::<4>(self.bytes.as_slice(), SNP_VMPL_OFFSET))
    }

    /// The algorithm that the report was signed with, as the report names it.
    pub fn sig_algo(&self) -> (res: u32)
        ensures
            res == spec_u32_le(self@.subrange(SNP_SIG_ALGO_OFFSET as int, SNP_SIG_ALGO_OFFSET + 4)),
    {
        u32_le(&array_at::<4>(self.bytes.as_slice(), SNP_SIG_ALGO_OFFSET))
    }

    /// The version of the platform's firmware.
    pub fn plat_version(&self) -> (res: u64)
        ensures
            res == spec_u64_le(self@.subrange(SNP_PLAT_VERSION_OFFSET as int, SNP_PLAT_VERSION_OFFSET + 8)),
    {
        u64_le(&array_at::<8>(self.bytes.as_slice(), SNP_PLAT_VERSION_OFFSET))
    }

    /// Information about the platform.
    pub fn plat_info(&self) -> (res: u64)
        ensures
            res == spec_u64_le(self@.subrange(SNP_PLAT_INFO_OFFSET as int, SNP_PLAT_INFO_OFFSET + 8)),
    {
        u64_le(&array_at::<8>(self.bytes.as_slice(), SNP_PLAT_INFO_OFFSET))
    }

    /// Whether the digest of the author key is present.
    pub fn author_key_en(&self) -> (res: u32)
        ensures
            res == spec_u32_le(self@.subrange(SNP_AUTHOR_KEY_EN_OFFSET as int, SNP_AUTHOR_KEY_EN_OFFSET + 4)),
    {
        u32_le(&array_at::<4>(self.bytes.as_slice(), SNP_AUTHOR_KEY_EN_OFFSET))
    }

    /// The 64 bytes that the guest chose to have reported.
    pub fn report_data(&self) -> (res: [u8; 64])
        ensures
            res@ == self@.subrange(SNP_REPORT_DATA_OFFSET as int, SNP_REPORT_DATA_OFFSET + 64),
    {
        array_at::<64>(self.bytes.as_slice(), SNP_REPORT_DATA_OFFSET)
    }

    /// The measurement of the guest at launch.
    pub fn measurement(&self) -> (res: [u8; 48])
        ensures
            res@ == self@.subrange(SNP_MEASUREMENT_OFFSET as int, SNP_MEASUREMENT_OFFSET + 48),
    {
        array_at::<48>(self.bytes.as_slice(), SNP_MEASUREMENT_OFFSET)
    }

    /// The data that the host gave at launch.
    pub fn host_data(&self) -> (res: [u8; 32])
        ensures
            res@ == self@.subrange(SNP_HOST_DATA_OFFSET as int, SNP_HOST_DATA_OFFSET + 32),
    {
        array_at::<32>(self.bytes.as_slice(), SNP_HOST_DATA_OFFSET)
    }

    /// The digest of the key that signed the guest's identity.
    pub fn id_key_digest(&self) -> (res: [u8; 48])
        ensures
            res@ == self@.subrange(SNP_ID_KEY_DIGEST_OFFSET as int, SNP_ID_KEY_DIGEST_OFFSET + 48),
    {
        array_at::<48>(self.bytes.as_slice(), SNP_ID_KEY_DIGEST_OFFSET)
    }

    /// The digest of the key that certified the identity key.
    pub fn author_key_digest(&self) -> (res: [u8; 48])
        ensures
            res@ == self@.subrange(SNP_AUTHOR_KEY_DIGEST_OFFSET as int, SNP_AUTHOR_KEY_DIGEST_OFFSET + 48),
    {
        array_at::<48>(self.bytes.as_slice(), SNP_AUTHOR_KEY_DIGEST_OFFSET)
    }

    /// The id of the report.
    pub fn report_id(&self) -> (res: [u8; 32])
        ensures
            res@ == self@.subrange(SNP_REPORT_ID_OFFSET as int, SNP_REPORT_ID_OFFSET + 32),
    {
        array_at::<32>(self.bytes.as_slice(), SNP_REPORT_ID_OFFSET)
    }

    /// The report id of the guest's migration agent.
    pub fn report_id_ma(&self) -> (res: [u8; 32])
        ensures
            res@ == self@.subrange(SNP_REPORT_ID_MA_OFFSET as int, SNP_REPORT_ID_MA_OFFSET + 32),
    {
        array_at::<32>(self.bytes.as_slice(), SNP_REPORT_ID_MA_OFFSET)
    }

    /// The version of the trusted computing base that is reported.
    pub fn reported_tcb(&self) -> (res: u64)
        ensures
            res == spec_u64_le(self@.subrange(SNP_REPORTED_TCB_OFFSET as int, SNP_REPORTED_TCB_OFFSET + 8)),
    {
        u64_le(&array_at::<8>(self.bytes.as_slice(), SNP_REPORTED_TCB_OFFSET))
    }

    /// The id of the chip.
    pub fn chip_id(&self) -> (res: [u8; 64])
        ensures
            res@ == self@.subrange(SNP_CHIP_ID_OFFSET as int, SNP_CHIP_ID_OFFSET + 64),
    {
        array_at::<64>(self.bytes.as_slice(), SNP_CHIP_ID_OFFSET)
    }

    /// The signature field as it is stored: R, then S, then padding.
    pub fn signature(&self) -> (res: [u8; 512])
        ensures
            res@ == self@.subrange(SNP_SIGNATURE_OFFSET as int, SNP_SIGNATURE_OFFSET + 512),
    {
        array_at::<512>(self.bytes.as_slice(), SNP_SIGNATURE_OFFSET)
    }
}

/// Parsing has no hidden state: two reports read from the same bytes are
/// equal.
pub proof fn lemma_snp_parse_deterministic(first: SnpReportData, second: SnpReportData, bytes: Seq<u8>)
    requires
        spec_parse_snp_report(bytes) == Ok::<Seq<u8>, QuoteError>(first@),
        spec_parse_snp_report(bytes) == Ok::<Seq<u8>, QuoteError>(second@),
    ensures
        first == second,
{
    assert(first.bytes =~= second.bytes);
}

/// The signed part of a report is the first `0x2A0` bytes of the buffer
/// that the report was read from, the reserved parts as they stood.
pub proof fn lemma_snp_message_unmodified(report: SnpReportData, bytes: Seq<u8>)
    requires
        spec_parse_snp_report(bytes) == Ok::<Seq<u8>, QuoteError>(report@),
    ensures
        bytes.len() == SNP_REPORT_SIZE,
        spec_snp_message(report@) == bytes.subrange(0, SNP_SIGNATURE_OFFSET as int),
        spec_snp_message(report@).len() == SNP_SIGNATURE_OFFSET,
{
}

} // verus!
