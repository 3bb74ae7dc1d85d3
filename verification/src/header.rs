//! The quote header and the version gate.
//!
//! ```text
//! offset  width  field
//!      0      2  version
//!      2      2  attestation key type
//!      4      4  reserved
//!      8      2  QE security version
//!     10      2  PCE security version
//!     12     16  QE vendor id
//!     28     20  user data
//! ```
//!
//! All integers are little-endian.

use vstd::prelude::*;
use crate::cast::{array_at, bytes_eq, slice_cast, spec_slice_cast, spec_u16_le, u16_le};
use crate::error::QuoteError;
use crate::sizes::{QUOTE_HEADER_SIZE, U16_SIZE};

verus! {

/// Offset of the version tag.
pub const VERSION_OFFSET: usize = 0;

/// Offset of the attestation key type.
pub const ATT_KEY_TYPE_OFFSET: usize = 2;

/// Offset of the security version of the quoting enclave.
pub const QE_SVN_OFFSET: usize = 8;

/// Offset of the security version of the provisioning certification enclave.
pub const PCE_SVN_OFFSET: usize = 10;

/// Offset of the vendor id of the quoting enclave.
pub const QE_VENDOR_ID_OFFSET: usize = 12;

/// Offset of the user data.
pub const USER_DATA_OFFSET: usize = 28;

/// The one version tag that is implemented.
pub const VERSION_3: u16 = 3;

/// The attestation key type of ECDSA with a P-256 key.
pub const ATT_KEY_TYPE_ECDSA_P256: u16 = 2;

/// The label under which the header is cast.
pub const HEADER_LABEL: &'static str = "header";

/// The vendor id of the Intel quoting enclave.
pub open spec fn intel_qe_vendor_id() -> Seq<u8> {
    seq![
        0x93u8, 0x9A, 0x72, 0x33, 0xF7, 0x9C, 0x4C, 0xA9, 0x94, 0x0A, 0x0D, 0xB3, 0x95, 0x7F, 0x06,
        0x07,
    ]
}

/// The versions of the quote body that can be parsed.
#[derive(Debug, Clone, Copy, PartialEq, Eq, Structural)]
pub enum QuoteVersion {
    V3,
}

/// The first 48 bytes of a quote.
#[derive(Debug, Clone, Copy, PartialEq, Eq)]
pub struct QuoteHeader {
    pub bytes: [u8; QUOTE_HEADER_SIZE],
}

impl View for QuoteHeader {
    type V = Seq<u8>;

    open spec fn view(&self) -> Seq<u8> {
        self.bytes@
    }
}

/// The version tag that a header of these bytes declares.
pub open spec fn spec_version_tag(header: Seq<u8>) -> u16 {
    spec_u16_le(header.subrange(VERSION_OFFSET as int, VERSION_OFFSET + 2))
}

/// The version gate: the body variant that a version tag selects.
pub open spec fn spec_version(header: Seq<u8>) -> Result<QuoteVersion, QuoteError> {
    if spec_version_tag(header) == VERSION_3 {
        Ok(QuoteVersion::V3)
    } else {
        Err(QuoteError::UnsupportedVersion(spec_version_tag(header)))
    }
}

/// The attestation key type that a header of these bytes declares.
pub open spec fn spec_att_key_type(header: Seq<u8>) -> u16 {
    spec_u16_le(header.subrange(ATT_KEY_TYPE_OFFSET as int, ATT_KEY_TYPE_OFFSET + 2))
}

/// The vendor id of the quoting enclave in a header of these bytes.
pub open spec fn spec_qe_vendor_id(header: Seq<u8>) -> Seq<u8> {
    header.subrange(QE_VENDOR_ID_OFFSET as int, QE_VENDOR_ID_OFFSET + 16)
}

/// Whether the consistency fields of a header are as they must be: the key
/// type is ECDSA with P-256 and the quoting enclave is Intel's.
pub open spec fn spec_header_consistent(header: Seq<u8>) -> bool {
    &&& spec_att_key_type(header) == ATT_KEY_TYPE_ECDSA_P256
    &&& spec_qe_vendor_id(header) == intel_qe_vendor_id()
}

/// The outcome of the header's structural check.
pub open spec fn spec_header_verify(header: Seq<u8>) -> Result<(), QuoteError> {
    if spec_header_consistent(header) {
        Ok(())
    } else {
        Err(QuoteError::StructuralCheckFailed)
    }
}

/// What parsing `region` as a header gives.
pub open spec fn spec_parse_header(region: Seq<u8>) -> Result<Seq<u8>, QuoteError> {
    spec_slice_cast::<QUOTE_HEADER_SIZE>(HEADER_LABEL, region)
}

/// The vendor id of the Intel quoting enclave.
pub fn intel_vendor_id() -> (res: [u8; 16])
    ensures
        res@ == intel_qe_vendor_id(),
{
    let id: [u8; 16] = [
        0x93, 0x9A, 0x72, 0x33, 0xF7, 0x9C, 0x4C, 0xA9, 0x94, 0x0A, 0x0D, 0xB3, 0x95, 0x7F, 0x06,
        0x07,
    ];
    assert(id@ =~= intel_qe_vendor_id());
    id
}

impl QuoteHeader {
    /// The header that holds exactly `bytes`.
    pub fn new(bytes: [u8; QUOTE_HEADER_SIZE]) -> (res: QuoteHeader)
        ensures
            res@ == bytes@,
    {
        QuoteHeader { bytes }
    }

    /// Reads a header from a region of exactly 48 bytes.
    pub fn parse(region: &[u8]) -> (res: Result<QuoteHeader, QuoteError>)
        ensures
            match res {
                Ok(header) => spec_parse_header(region@) == Ok::<Seq<u8>, QuoteError>(header@),
                Err(e) => spec_parse_header(region@) == Err::<Seq<u8>, QuoteError>(e),
            },
    {
        match slice_cast::<QUOTE_HEADER_SIZE>(HEADER_LABEL, region) {
            Ok(bytes) => Ok(QuoteHeader { bytes }),
            Err(e) => Err(e),
        }
    }

    /// The whole header.
    pub fn as_bytes(&self) -> (res: &[u8])
        ensures
            res@ == self@,
            res@.len() == QUOTE_HEADER_SIZE,
    {
        self.bytes.as_slice()
    }

    /// The version tag as it stands in the header.
    pub fn version_tag(&self) -> (res: u16)
        ensures
            res == spec_version_tag(self@),
    {
        u16_le(&array_at::<U16_SIZE>(self.bytes.as_slice(), VERSION_OFFSET))
    }

    /// The body variant that the header selects. Any tag but the
    /// implemented one is refused.
    pub fn version(&self) -> (res: Result<QuoteVersion, QuoteError>)
        ensures
            res == spec_version(self@),
    {
        let tag = self.version_tag();
        if tag == VERSION_3 {
            Ok(QuoteVersion::V3)
        } else {
            Err(QuoteError::UnsupportedVersion(tag))
        }
    }

    /// The type of the attestation key.
    pub fn att_key_type(&self) -> (res: u16)
        ensures
            res == spec_att_key_type(self@),
    {
        u16_le(&array_at::<U16_SIZE>(self.bytes.as_slice(), ATT_KEY_TYPE_OFFSET))
    }

    /// The security version of the quoting enclave.
    pub fn qe_svn(&self) -> (res: u16)
        ensures
            res == spec_u16_le(self@.subrange(QE_SVN_OFFSET as int, QE_SVN_OFFSET + 2)),
    {
        u16_le(&array_at::<U16_SIZE>(self.bytes.as_slice(), QE_SVN_OFFSET))
    }

    /// The security version of the provisioning certification enclave.
    pub fn pce_svn(&self) -> (res: u16)
        ensures
            res == spec_u16_le(self@.subrange(PCE_SVN_OFFSET as int, PCE_SVN_OFFSET + 2)),
    {
        u16_le(&array_at::<U16_SIZE>(self.bytes.as_slice(), PCE_SVN_OFFSET))
    }

    /// The vendor id of the quoting enclave.
    pub fn qe_vendor_id(&self) -> (res: [u8; 16])
        ensures
            res@ == spec_qe_vendor_id(self@),
    {
        array_at::<16>(self.bytes.as_slice(), QE_VENDOR_ID_OFFSET)
    }

    /// The user data of the quoting enclave.
    pub fn user_data(&self) -> (res: [u8; 20])
        ensures
            res@ == self@.subrange(USER_DATA_OFFSET as int, USER_DATA_OFFSET + 20),
    {
        array_at::<20>(self.bytes.as_slice(), USER_DATA_OFFSET)
    }

    /// The structural check of the header, which needs no signature: the
    /// key type and the vendor id must be the expected ones.
    pub fn verify(&self) -> (res: Result<(), QuoteError>)
        ensures
            res == spec_header_verify(self@),
    {
        let vendor = self.qe_vendor_id();
        let intel = intel_vendor_id();
        if self.att_key_type() == ATT_KEY_TYPE_ECDSA_P256 && bytes_eq(
            vendor.as_slice(),
            intel.as_slice(),
        ) {
            Ok(())
        } else {
            Err(QuoteError::StructuralCheckFailed)
        }
    }
}

} // verus!
