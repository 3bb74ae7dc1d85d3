//! The SGX quote: header, versioned body and signature block.
//!
//! ```text
//! offset  width  part
//!      0     48  header
//!     48    384  ISV enclave report
//!    432      4  length of the signature block
//!    436      *  signature block
//! ```
//!
//! All integers are little-endian. The length of the signature block is
//! declared by whoever made the quote: nothing behind offset 436 is read
//! before the declared end has been found to lie inside the buffer.

use vstd::prelude::*;
use crate::cast::{clipped, slice_cast, spec_clipped, spec_slice_cast, spec_u32_le, u32_le};
use crate::error::QuoteError;
use crate::header::{
    spec_header_verify, spec_parse_header, spec_version, spec_version_tag, QuoteHeader,
    QuoteVersion,
};
use crate::report::ReportBody;
use crate::signature::{spec_parse_sig_data, SigData, SIG_DATA_FIXED_SIZE};
use crate::sizes::{QUOTE_HEADER_SIZE, QUOTE_SIG_DATA_LEN_SIZE, QUOTE_SIG_START, REPORT_SIZE};
use crate::verdict::{
    first_failure, report_answer, spec_first_failure, takes_every_report, takes_every_signature,
    SignatureAlgorithm,
};

verus! {

/// Offset of the ISV enclave report.
pub const REPORT_OFFSET: usize = 48;

/// Offset of the declared length of the signature block.
pub const SIG_DATA_LEN_OFFSET: usize = 432;

/// The labels under which the parts of the body are cast.
pub const REPORT_LABEL: &'static str = "isv enclave report";

pub const SIG_DATA_LEN_LABEL: &'static str = "sig data len";

/// The length of the signature block that a quote of these bytes declares.
pub open spec fn spec_sig_data_len(bytes: Seq<u8>) -> u32 {
    spec_u32_le(bytes.subrange(SIG_DATA_LEN_OFFSET as int, QUOTE_SIG_START as int))
}

/// Where a quote of these bytes says that it ends.
pub open spec fn spec_expected_quote_len(bytes: Seq<u8>) -> int {
    QUOTE_SIG_START + spec_sig_data_len(bytes)
}

/// What parsing the body of a version 3 quote out of the whole quote gives:
/// the first refusal met on the way, or nothing to object to.
///
/// The report and the length field are cast from where they lie; then the
/// declared end must lie inside the buffer; then the signature block is
/// parsed from its start to the declared end.
pub open spec fn spec_parse_body_v3(bytes: Seq<u8>) -> Result<(), QuoteError> {
    let report = spec_slice_cast::<REPORT_SIZE>(
        REPORT_LABEL,
        spec_clipped(bytes, REPORT_OFFSET as int, SIG_DATA_LEN_OFFSET as int),
    );
    let len_field = spec_slice_cast::<QUOTE_SIG_DATA_LEN_SIZE>(
        SIG_DATA_LEN_LABEL,
        spec_clipped(bytes, SIG_DATA_LEN_OFFSET as int, QUOTE_SIG_START as int),
    );
    if report is Err {
        Err(report->Err_0)
    } else if len_field is Err {
        Err(len_field->Err_0)
    } else if bytes.len() < spec_expected_quote_len(bytes) {
        Err(QuoteError::BufferTooShort)
    } else {
        match spec_parse_sig_data(
            bytes.subrange(QUOTE_SIG_START as int, spec_expected_quote_len(bytes)),
        ) {
            Err(e) => Err(e),
            Ok(_) => Ok(()),
        }
    }
}

/// What parsing a quote body gives, for a header of the bytes `header`.
pub open spec fn spec_parse_body(header: Seq<u8>, bytes: Seq<u8>) -> Result<(), QuoteError> {
    match spec_version(header) {
        Err(e) => Err(e),
        Ok(QuoteVersion::V3) => spec_parse_body_v3(bytes),
    }
}

/// What parsing a whole quote gives.
pub open spec fn spec_parse_quote(bytes: Seq<u8>) -> Result<(), QuoteError> {
    match spec_parse_header(spec_clipped(bytes, 0, QUOTE_HEADER_SIZE as int)) {
        Err(e) => Err(e),
        Ok(header) => spec_parse_body(header, bytes),
    }
}

/// The body of a version 3 quote.
#[derive(Debug, Clone, Copy, PartialEq, Eq)]
pub struct QuoteBodyV3<'a> {
    report_body: ReportBody,
    sig_data_len: u32,
    sig_data: SigData<'a>,
}

impl<'a> QuoteBodyV3<'a> {
    /// The declared length is the length of the block that was parsed, and
    /// the end of the quote is an offset that a buffer can have.
    #[verifier::type_invariant]
    spec fn consistent(&self) -> bool {
        &&& self.sig_data_len == self.sig_data@.len()
        &&& QUOTE_SIG_START + self.sig_data_len <= usize::MAX
    }

    /// The ISV enclave report of this body.
    pub closed spec fn spec_report_body(&self) -> ReportBody {
        self.report_body
    }

    /// The length of the signature block that this body holds.
    pub closed spec fn spec_sig_data_len_field(&self) -> u32 {
        self.sig_data_len
    }

    /// The signature block of this body.
    pub closed spec fn spec_sig_data(&self) -> SigData<'a> {
        self.sig_data
    }

    /// Each part of the body is what stands at its place in `bytes`.
    pub open spec fn parts_of(&self, bytes: Seq<u8>) -> bool {
        &&& bytes.len() >= spec_expected_quote_len(bytes)
        &&& self.spec_report_body()@ == bytes.subrange(
            REPORT_OFFSET as int,
            SIG_DATA_LEN_OFFSET as int,
        )
        &&& self.spec_sig_data_len_field() == spec_sig_data_len(bytes)
        &&& self.spec_sig_data().fields_of(
            bytes.subrange(QUOTE_SIG_START as int, spec_expected_quote_len(bytes)),
        )
    }

    /// Reads the body of a version 3 quote. `bytes` is the whole quote, its
    /// header included.
    pub fn try_from(bytes: &'a [u8]) -> (res: Result<QuoteBodyV3<'a>, QuoteError>)
        ensures
            match res {
                Ok(body) => spec_parse_body_v3(bytes@) is Ok && body.parts_of(bytes@),
                Err(e) => spec_parse_body_v3(bytes@) == Err::<(), QuoteError>(e),
            },
    {
        let report_body = match ReportBody::parse(
            REPORT_LABEL,
            clipped(bytes, REPORT_OFFSET, SIG_DATA_LEN_OFFSET),
        ) {
            Ok(report) => report,
            Err(e) => {
                return Err(e);
            },
        };
        let sig_data_len = match slice_cast::<QUOTE_SIG_DATA_LEN_SIZE>(
            SIG_DATA_LEN_LABEL,
            clipped(bytes, SIG_DATA_LEN_OFFSET, QUOTE_SIG_START),
        ) {
            Ok(field) => u32_le(&field),
            Err(e) => {
                return Err(e);
            },
        };
        let len: usize = bytes.len();
        assert(len >= QUOTE_SIG_START);
        let room: u64 = (len - QUOTE_SIG_START) as u64;
        let declared: u64 = sig_data_len as u64;
        if room < declared {
            return Err(QuoteError::BufferTooShort);
        }
        let expected_quote_len: usize = QUOTE_SIG_START + sig_data_len as usize;
        let sig_data = match SigData::try_from(&bytes[QUOTE_SIG_START..expected_quote_len]) {
            Ok(sig_data) => sig_data,
            Err(e) => {
                return Err(e);
            },
        };
        Ok(QuoteBodyV3 { report_body, sig_data_len, sig_data })
    }

    /// Report of the attested enclave.
    pub fn report_body(&self) -> (res: &ReportBody)
        ensures
            *res == self.spec_report_body(),
    {
        &self.report_body
    }

    /// Size of the signature block, as the quote declared it and as it was
    /// found.
    pub fn sig_data_len(&self) -> (res: u32)
        ensures
            res == self.spec_sig_data_len_field(),
            res == self.spec_sig_data()@.len(),
    {
        proof {
            use_type_invariant(self);
        }
        self.sig_data_len
    }

    /// The signature block.
    pub fn sig_data(&self) -> (res: &SigData<'a>)
        ensures
            *res == self.spec_sig_data(),
    {
        &self.sig_data
    }

    /// The length of the quote that this body was read from: the fixed
    /// parts and the signature block.
    pub fn expected_quote_len(&self) -> (res: usize)
        ensures
            res == QUOTE_SIG_START + self.spec_sig_data_len_field(),
    {
        proof {
            use_type_invariant(self);
        }
        QUOTE_SIG_START + self.sig_data_len as usize
    }
}

impl<'a> QuoteBodyV3<'a> {
    /// Whether `res` can be the outcome of verifying this body: the report
    /// verifier was asked about the ISV enclave report, then the signature
    /// block was verified against that report; `res` is the first refusal,
    /// or success.
    pub open spec fn verified_as<R, S>(
        &self,
        report_verifier: &R,
        raw_verifier: &S,
        res: Result<(), QuoteError>,
    ) -> bool where
        R: Fn(&ReportBody) -> Result<(), QuoteError>,
        S: Fn(&[u8], SignatureAlgorithm, &[u8], &[u8]) -> Result<(), QuoteError>,
     {
        exists|isv: Result<(), QuoteError>, block: Result<(), QuoteError>|
            {
                &&& res == #[trigger] spec_first_failure(isv, block)
                &&& report_answer(report_verifier, self.spec_report_body()@, isv)
                &&& isv is Ok ==> self.spec_sig_data().verified_as(
                    self.spec_report_body()@,
                    report_verifier,
                    raw_verifier,
                    block,
                )
            }
    }

    /// Verifies the body: first the ISV enclave report, then the signature
    /// block. The first refusal ends the verification and is handed back as
    /// it came.
    pub fn verify<R, S>(&self, report_verifier: &R, raw_verifier: &S) -> (res: Result<
        (),
        QuoteError,
    >) where
        R: Fn(&ReportBody) -> Result<(), QuoteError>,
        S: Fn(&[u8], SignatureAlgorithm, &[u8], &[u8]) -> Result<(), QuoteError>,

        requires
            takes_every_report(report_verifier),
            takes_every_signature(raw_verifier),
        ensures
            self.verified_as(report_verifier, raw_verifier, res),
    {
        let isv = report_verifier(&self.report_body);
        match isv {
            Err(e) => {
                assert(Err::<(), QuoteError>(e) == spec_first_failure(isv, Ok(())));
                Err(e)
            },
            Ok(()) => {
                let block = self.sig_data.verify(&self.report_body, report_verifier, raw_verifier);
                assert(block == spec_first_failure(isv, block));
                block
            },
        }
    }
}

/// The body of a quote, in the layout that the header's version selects.
///
/// A version that is not listed here is refused when the quote is parsed:
/// no layout is ever guessed.
#[derive(Debug, Clone, Copy, PartialEq, Eq)]
#[non_exhaustive]
pub enum QuoteBody<'a> {
    V3(QuoteBodyV3<'a>),
}

impl<'a> QuoteBody<'a> {
    /// Each part of the body is what stands at its place in `bytes`.
    pub open spec fn parts_of(&self, bytes: Seq<u8>) -> bool {
        match *self {
            QuoteBody::V3(body) => body.parts_of(bytes),
        }
    }

    /// Whether `res` can be the outcome of verifying this body.
    pub open spec fn verified_as<R, S>(
        &self,
        report_verifier: &R,
        raw_verifier: &S,
        res: Result<(), QuoteError>,
    ) -> bool where
        R: Fn(&ReportBody) -> Result<(), QuoteError>,
        S: Fn(&[u8], SignatureAlgorithm, &[u8], &[u8]) -> Result<(), QuoteError>,
     {
        match *self {
            QuoteBody::V3(body) => body.verified_as(report_verifier, raw_verifier, res),
        }
    }

    /// Reads the body in the layout that `header` selects. `bytes` is the
    /// whole quote, its header included.
    pub fn try_from(header: &QuoteHeader, bytes: &'a [u8]) -> (res: Result<
        QuoteBody<'a>,
        QuoteError,
    >)
        ensures
            match res {
                Ok(body) => spec_parse_body(header@, bytes@) is Ok && body.parts_of(bytes@),
                Err(e) => spec_parse_body(header@, bytes@) == Err::<(), QuoteError>(e),
            },
    {
        match header.version() {
            Err(e) => Err(e),
            Ok(QuoteVersion::V3) => match QuoteBodyV3::try_from(bytes) {
                Ok(body) => Ok(QuoteBody::V3(body)),
                Err(e) => Err(e),
            },
        }
    }

    /// Verifies the body.
    pub fn verify<R, S>(&self, report_verifier: &R, raw_verifier: &S) -> (res: Result<
        (),
        QuoteError,
    >) where
        R: Fn(&ReportBody) -> Result<(), QuoteError>,
        S: Fn(&[u8], SignatureAlgorithm, &[u8], &[u8]) -> Result<(), QuoteError>,

        requires
            takes_every_report(report_verifier),
            takes_every_signature(raw_verifier),
        ensures
            self.verified_as(report_verifier, raw_verifier, res),
    {
        match self {
            QuoteBody::V3(body) => body.verify(report_verifier, raw_verifier),
        }
    }

    /// The length of the quote that this body was read from.
    pub fn expected_quote_len(&self) -> (res: usize)
        ensures
            res == self.spec_expected_quote_len(),
    {
        match self {
            QuoteBody::V3(body) => body.expected_quote_len(),
        }
    }

    /// The length of the quote that this body was read from.
    pub open spec fn spec_expected_quote_len(&self) -> int {
        match *self {
            QuoteBody::V3(body) => QUOTE_SIG_START + body.spec_sig_data_len_field(),
        }
    }
}

/// A quote: the proof that an enclave with a certain measurement runs on a
/// platform that the quoting enclave vouches for.
#[derive(Debug, Clone, Copy, PartialEq, Eq)]
pub struct Quote<'a> {
    /// The fixed prefix of the quote.
    pub header: QuoteHeader,
    /// The body, in the layout of the header's version.
    pub body: QuoteBody<'a>,
}

impl<'a> Quote<'a> {
    /// Each part of the quote is what stands at its place in `bytes`.
    pub open spec fn parsed_from(&self, bytes: Seq<u8>) -> bool {
        &&& bytes.len() >= QUOTE_SIG_START
        &&& self.header@ == bytes.subrange(0, QUOTE_HEADER_SIZE as int)
        &&& self.body.parts_of(bytes)
    }

    /// Whether `res` can be the outcome of verifying this quote: the
    /// header's own check, then the body; `res` is the first refusal, or
    /// success.
    pub open spec fn verified_as<R, S>(
        &self,
        report_verifier: &R,
        raw_verifier: &S,
        res: Result<(), QuoteError>,
    ) -> bool where
        R: Fn(&ReportBody) -> Result<(), QuoteError>,
        S: Fn(&[u8], SignatureAlgorithm, &[u8], &[u8]) -> Result<(), QuoteError>,
     {
        exists|body: Result<(), QuoteError>|
            {
                &&& res == #[trigger] spec_first_failure(spec_header_verify(self.header@), body)
                &&& spec_header_verify(self.header@) is Ok ==> self.body.verified_as(
                    report_verifier,
                    raw_verifier,
                    body,
                )
            }
    }

    /// Reads a quote.
    ///
    /// The header is cast first and its version selects the layout of the
    /// body. A buffer that ends before the end that the quote declares is
    /// refused; bytes behind that end are not part of the quote.
    pub fn try_from(bytes: &'a [u8]) -> (res: Result<Quote<'a>, QuoteError>)
        ensures
            match res {
                Ok(quote) => spec_parse_quote(bytes@) is Ok && quote.parsed_from(bytes@),
                Err(e) => spec_parse_quote(bytes@) == Err::<(), QuoteError>(e),
            },
    {
        let header = match QuoteHeader::parse(clipped(bytes, 0, QUOTE_HEADER_SIZE)) {
            Ok(header) => header,
            Err(e) => {
                return Err(e);
            },
        };
        let body = match QuoteBody::try_from(&header, bytes) {
            Ok(body) => body,
            Err(e) => {
                return Err(e);
            },
        };
        Ok(Quote { header, body })
    }

    /// Verifies the quote: the header's structural check, then the body's
    /// reports, then the signature. Each step is taken only after the one
    /// before it went well, and the first refusal is handed back as it
    /// came.
    pub fn verify<R, S>(&self, report_verifier: &R, raw_verifier: &S) -> (res: Result<
        (),
        QuoteError,
    >) where
        R: Fn(&ReportBody) -> Result<(), QuoteError>,
        S: Fn(&[u8], SignatureAlgorithm, &[u8], &[u8]) -> Result<(), QuoteError>,

        requires
            takes_every_report(report_verifier),
            takes_every_signature(raw_verifier),
        ensures
            self.verified_as(report_verifier, raw_verifier, res),
    {
        match self.header.verify() {
            Err(e) => {
                assert(Err::<(), QuoteError>(e) == spec_first_failure(
                    spec_header_verify(self.header@),
                    Ok(()),
                ));
                Err(e)
            },
            Ok(()) => {
                let body = self.body.verify(report_verifier, raw_verifier);
                assert(body == spec_first_failure(spec_header_verify(self.header@), body));
                body
            },
        }
    }

    /// The outcome of the verification for given answers of the two
    /// verifiers: the header's own check comes first, then the answer on
    /// the ISV enclave report, then the answer on the report of the quoting
    /// enclave, then the answer on the signature.
    pub open spec fn spec_conclude(
        &self,
        isv_report: Result<(), QuoteError>,
        qe_report: Result<(), QuoteError>,
        signature: Result<(), QuoteError>,
    ) -> Result<(), QuoteError> {
        spec_first_failure(
            spec_header_verify(self.header@),
            spec_first_failure(isv_report, spec_first_failure(qe_report, signature)),
        )
    }

    /// The outcome of the verification once the verifiers have answered:
    /// the first refusal in the order of the steps, or success. An answer
    /// that stands behind a refusal does not count.
    pub fn conclude(
        &self,
        isv_report: Result<(), QuoteError>,
        qe_report: Result<(), QuoteError>,
        signature: Result<(), QuoteError>,
    ) -> (res: Result<(), QuoteError>)
        ensures
            res == self.spec_conclude(isv_report, qe_report, signature),
    {
        first_failure(
            self.header.verify(),
            first_failure(isv_report, first_failure(qe_report, signature)),
        )
    }

    /// The length of the buffer that holds exactly this quote.
    pub fn expected_quote_len(&self) -> (res: usize)
        ensures
            res == self.body.spec_expected_quote_len(),
    {
        self.body.expected_quote_len()
    }
}

/// Round trip of the length: a quote read from a buffer that ends exactly
/// where the quote says it ends computes that buffer's length again.
pub proof fn lemma_round_trip_length(quote: Quote, bytes: Seq<u8>)
    requires
        quote.parsed_from(bytes),
        bytes.len() == spec_expected_quote_len(bytes),
    ensures
        quote.body.spec_expected_quote_len() == bytes.len(),
{
}

/// The computed length of a quote is the end that the buffer declared, and
/// that end lies inside the buffer.
pub proof fn lemma_expected_len_inside(quote: Quote, bytes: Seq<u8>)
    requires
        quote.parsed_from(bytes),
    ensures
        quote.body.spec_expected_quote_len() == spec_expected_quote_len(bytes),
        quote.body.spec_expected_quote_len() <= bytes.len(),
{
}

/// The version gate: a quote whose header declares any version but the
/// implemented one is refused with that version, whatever else it holds.
pub proof fn lemma_version_gate(bytes: Seq<u8>)
    requires
        bytes.len() >= QUOTE_HEADER_SIZE,
        spec_version(bytes.subrange(0, QUOTE_HEADER_SIZE as int)) is Err,
    ensures
        spec_parse_quote(bytes) == Err::<(), QuoteError>(
            QuoteError::UnsupportedVersion(
                spec_version_tag(bytes.subrange(0, QUOTE_HEADER_SIZE as int)),
            ),
        ),
{
}

/// The guard against reading past the buffer: a version 3 quote that is cut
/// off anywhere inside the signature block that it declares is refused as
/// too short.
pub proof fn lemma_buffer_too_short(bytes: Seq<u8>)
    requires
        bytes.len() >= QUOTE_SIG_START,
        spec_version(bytes.subrange(0, QUOTE_HEADER_SIZE as int)) is Ok,
        bytes.len() < spec_expected_quote_len(bytes),
    ensures
        spec_parse_quote(bytes) == Err::<(), QuoteError>(QuoteError::BufferTooShort),
{
}

/// Success is owed: a version 3 quote whose declared signature block holds
/// the fixed fields and ends inside the buffer is accepted.
pub proof fn lemma_parse_succeeds(bytes: Seq<u8>)
    requires
        bytes.len() >= QUOTE_SIG_START,
        spec_version(bytes.subrange(0, QUOTE_HEADER_SIZE as int)) is Ok,
        spec_expected_quote_len(bytes) <= bytes.len(),
        spec_sig_data_len(bytes) >= SIG_DATA_FIXED_SIZE,
    ensures
        spec_parse_quote(bytes) is Ok,
{
}

/// Parsing has no hidden state: two quotes read from the same bytes are
/// equal, part for part.
pub proof fn lemma_parse_deterministic(first: Quote, second: Quote, bytes: Seq<u8>)
    requires
        first.parsed_from(bytes),
        second.parsed_from(bytes),
    ensures
        first.header == second.header,
        first.body == second.body,
        first == second,
{
    assert(first.header.bytes =~= second.header.bytes);
    match (first.body, second.body) {
        (QuoteBody::V3(a), QuoteBody::V3(b)) => {
            assert(a.report_body.bytes =~= b.report_body.bytes);
            assert(a.sig_data.isv_report_sig =~= b.sig_data.isv_report_sig);
            assert(a.sig_data.attestation_key =~= b.sig_data.attestation_key);
            assert(a.sig_data.qe_report.bytes =~= b.sig_data.qe_report.bytes);
            assert(a.sig_data.qe_report_sig =~= b.sig_data.qe_report_sig);
            assert(a.sig_data.certification_data =~= b.sig_data.certification_data);
        },
    }
}

/// Whatever the verifiers answer, the outcome of verifying a quote is what
/// `conclude` gives for some three answers: no outcome comes from anywhere
/// but the header's check and the verifiers.
pub proof fn lemma_verify_concludes<R, S>(
    quote: Quote,
    report_verifier: &R,
    raw_verifier: &S,
    res: Result<(), QuoteError>,
) where
    R: Fn(&ReportBody) -> Result<(), QuoteError>,
    S: Fn(&[u8], SignatureAlgorithm, &[u8], &[u8]) -> Result<(), QuoteError>,

    requires
        quote.verified_as(report_verifier, raw_verifier, res),
    ensures
        exists|isv: Result<(), QuoteError>, qe: Result<(), QuoteError>, sig: Result<(), QuoteError>|
            res == #[trigger] quote.spec_conclude(isv, qe, sig),
{
    let body = choose|body: Result<(), QuoteError>|
        {
            &&& res == #[trigger] spec_first_failure(spec_header_verify(quote.header@), body)
            &&& spec_header_verify(quote.header@) is Ok ==> quote.body.verified_as(
                report_verifier,
                raw_verifier,
                body,
            )
        };
    if spec_header_verify(quote.header@) is Ok {
        match quote.body {
            QuoteBody::V3(v3) => {
                let (isv, block) = choose|isv: Result<(), QuoteError>, block: Result<(), QuoteError>|
                    {
                        &&& body == #[trigger] spec_first_failure(isv, block)
                        &&& report_answer(report_verifier, v3.spec_report_body()@, isv)
                        &&& isv is Ok ==> v3.spec_sig_data().verified_as(
                            v3.spec_report_body()@,
                            report_verifier,
                            raw_verifier,
                            block,
                        )
                    };
                if isv is Ok {
                    let (qe, sig) = choose|qe: Result<(), QuoteError>, sig: Result<(), QuoteError>|
                        block == #[trigger] spec_first_failure(qe, sig);
                    assert(res == quote.spec_conclude(isv, qe, sig));
                } else {
                    assert(res == quote.spec_conclude(isv, Ok(()), Ok(())));
                }
            },
        }
    } else {
        assert(res == quote.spec_conclude(Ok(()), Ok(()), Ok(())));
    }
}

} // verus!
