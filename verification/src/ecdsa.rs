//! The signature normalizer: from a raw pair of fixed-width big numbers to
//! the two-integer `ECDSA-Sig-Value` encoding that signature verifiers take.
//!
//! ```text
//! ECDSA-Sig-Value ::= SEQUENCE {
//!     r INTEGER,
//!     s INTEGER
//! }
//! ```

use vstd::prelude::*;
use der::asn1::{Any, UIntBytes};
use der::{Encodable, Tag};
use crate::error::QuoteError;

verus! {

/// The longest encoding that the DER encoder produces.
pub const DER_MAX_LEN: usize = 0xfff_ffff;

/// Tag octet of an `INTEGER`.
pub const TAG_INTEGER: u8 = 0x02;

/// Tag octet of a `SEQUENCE`.
pub const TAG_SEQUENCE: u8 = 0x30;

/// `bytes` without its leading zero bytes; the last byte always stays.
pub open spec fn strip_leading_zeroes(bytes: Seq<u8>) -> Seq<u8>
    decreases bytes.len(),
{
    if bytes.len() > 1 && bytes[0] == 0 {
        strip_leading_zeroes(bytes.skip(1))
    } else {
        bytes
    }
}

/// The content octets of the unsigned integer whose big-endian digits are
/// `bytes`: the digits without leading zeroes, behind one zero byte where
/// the first digit would otherwise read as a sign.
pub open spec fn uint_content(bytes: Seq<u8>) -> Seq<u8> {
    let digits = strip_leading_zeroes(bytes);
    if digits.len() > 0 && digits[0] >= 0x80 {
        seq![0u8] + digits
    } else {
        digits
    }
}

/// The length octets for a value of `n` bytes, in the shortest form.
pub open spec fn der_length(n: nat) -> Seq<u8> {
    if n < 0x80 {
        seq![n as u8]
    } else if n <= 0xff {
        seq![0x81u8, n as u8]
    } else if n <= 0xffff {
        seq![0x82u8, (n / 0x100) as u8, (n % 0x100) as u8]
    } else if n <= 0xff_ffff {
        seq![0x83u8, (n / 0x1_0000) as u8, (n / 0x100 % 0x100) as u8, (n % 0x100) as u8]
    } else {
        seq![
            0x84u8,
            (n / 0x100_0000 % 0x100) as u8,
            (n / 0x1_0000 % 0x100) as u8,
            (n / 0x100 % 0x100) as u8,
            (n % 0x100) as u8,
        ]
    }
}

/// Tag, length and value.
pub open spec fn der_tlv(tag: u8, value: Seq<u8>) -> Seq<u8> {
    seq![tag] + der_length(value.len()) + value
}

/// The `INTEGER` that holds the unsigned big-endian number `bytes`.
pub open spec fn der_uint(bytes: Seq<u8>) -> Seq<u8> {
    der_tlv(TAG_INTEGER, uint_content(bytes))
}

/// The `SEQUENCE` whose content is `body`.
pub open spec fn der_sequence(body: Seq<u8>) -> Seq<u8> {
    der_tlv(TAG_SEQUENCE, body)
}

#[verifier::external_type_specification]
#[verifier::external_body]
pub struct ExDerError(der::Error);

/// Encodes the unsigned big-endian number `bytes` with `der`:
/// `UIntBytes::new`, then `Encodable::to_vec`.
///
/// Trusted: the encoder strips the leading zeroes but the last byte, puts a
/// zero byte in front where the first digit has its high bit set, and writes
/// tag `0x02` and the shortest length before that. It fails exactly when the
/// whole encoding would be longer than the encoder's maximum.
#[verifier::external_body]
fn encode_uint(bytes: &[u8]) -> (res: Result<Vec<u8>, der::Error>)
    ensures
        res is Ok <==> der_uint(bytes@).len() <= DER_MAX_LEN,
        res matches Ok(v) ==> v@ == der_uint(bytes@),
{
    UIntBytes::new(bytes)?.to_vec()
}

/// Frames `body` as a `SEQUENCE` with `der`: `Any::new` with the sequence
/// tag, then `Encodable::to_vec`.
///
/// Trusted: the encoder writes tag `0x30`, the shortest length and `body`
/// unchanged. It fails exactly when the whole encoding would be longer than
/// the encoder's maximum.
#[verifier::external_body]
fn encode_sequence(body: &[u8]) -> (res: Result<Vec<u8>, der::Error>)
    ensures
        res is Ok <==> der_sequence(body@).len() <= DER_MAX_LEN,
        res matches Ok(v) ==> v@ == der_sequence(body@),
{
    Any::new(Tag::Sequence, body)?.to_vec()
}

/// `bytes` in the opposite order.
pub fn reversed(bytes: &[u8]) -> (res: Vec<u8>)
    ensures
        res@ == bytes@.reverse(),
{
    let n: usize = bytes.len();
    let mut out: Vec<u8> = Vec::with_capacity(n);
    let mut i: usize = 0;
    while i < n
        invariant
            n == bytes@.len(),
            i <= n,
            out@.len() == i,
            forall|j: int| 0 <= j < i ==> out@[j] == bytes@[n - 1 - j],
        decreases n - i,
    {
        out.push(bytes[n - 1 - i]);
        i += 1;
    }
    assert(out@ =~= bytes@.reverse());
    out
}

/// `head` followed by `tail`.
fn concat(head: &[u8], tail: &[u8]) -> (res: Vec<u8>)
    requires
        head@.len() + tail@.len() <= usize::MAX,
    ensures
        res@ == head@ + tail@,
{
    let mut out: Vec<u8> = Vec::with_capacity(head.len() + tail.len());
    let mut i: usize = 0;
    while i < head.len()
        invariant
            i <= head@.len(),
            out@ == head@.subrange(0, i as int),
        decreases head@.len() - i,
    {
        out.push(head[i]);
        assert(out@ =~= head@.subrange(0, i + 1));
        i += 1;
    }
    assert(head@.subrange(0, head@.len() as int) =~= head@);
    let mut j: usize = 0;
    while j < tail.len()
        invariant
            j <= tail@.len(),
            out@ == head@ + tail@.subrange(0, j as int),
        decreases tail@.len() - j,
    {
        out.push(tail[j]);
        assert(out@ =~= head@ + tail@.subrange(0, j + 1));
        j += 1;
    }
    assert(tail@.subrange(0, tail@.len() as int) =~= tail@);
    out
}

/// The encoding of the signature `(r, s)`, where it has one.
///
/// There is none where a number has no digit at all, and none where an
/// encoding would pass the encoder's maximum length.
pub open spec fn spec_normalize(r: Seq<u8>, s: Seq<u8>) -> Result<Seq<u8>, QuoteError> {
    let body = der_uint(r) + der_uint(s);
    if r.len() == 0 || s.len() == 0 {
        Err(QuoteError::InvalidInteger)
    } else if der_uint(r).len() > DER_MAX_LEN || der_uint(s).len() > DER_MAX_LEN || der_sequence(
        body,
    ).len() > DER_MAX_LEN {
        Err(QuoteError::InvalidInteger)
    } else {
        Ok(der_sequence(body))
    }
}

/// A signature as a pair of unsigned numbers, each given by its big-endian
/// digits. It borrows the digits and lives only as long as it takes to
/// encode it.
#[derive(Debug, Clone, Copy, PartialEq, Eq)]
pub struct EcdsaSig<'a> {
    pub r: &'a [u8],
    pub s: &'a [u8],
}

impl<'a> EcdsaSig<'a> {
    /// The encoding of the signature as an `ECDSA-Sig-Value`.
    pub fn to_vec(&self) -> (res: Result<Vec<u8>, QuoteError>)
        ensures
            match res {
                Ok(v) => spec_normalize(self.r@, self.s@) == Ok::<Seq<u8>, QuoteError>(v@),
                Err(e) => spec_normalize(self.r@, self.s@) == Err::<Seq<u8>, QuoteError>(e),
            },
    {
        normalize(self.r, self.s)
    }
}

/// Encodes the unsigned big-endian numbers `r` and `s` as one
/// `ECDSA-Sig-Value`.
pub fn normalize(r: &[u8], s: &[u8]) -> (res: Result<Vec<u8>, QuoteError>)
    ensures
        match res {
            Ok(v) => spec_normalize(r@, s@) == Ok::<Seq<u8>, QuoteError>(v@),
            Err(e) => spec_normalize(r@, s@) == Err::<Seq<u8>, QuoteError>(e),
        },
{
    if r.len() == 0 || s.len() == 0 {
        return Err(QuoteError::InvalidInteger);
    }
    let r_der = match encode_uint(r) {
        Ok(v) => v,
        Err(_) => {
            return Err(QuoteError::InvalidInteger);
        },
    };
    let s_der = match encode_uint(s) {
        Ok(v) => v,
        Err(_) => {
            return Err(QuoteError::InvalidInteger);
        },
    };
    let body = concat(r_der.as_slice(), s_der.as_slice());
    match encode_sequence(body.as_slice()) {
        Ok(v) => Ok(v),
        Err(_) => Err(QuoteError::InvalidInteger),
    }
}

/// Encodes a signature whose two numbers are stored least significant byte
/// first, as both evidence formats store them.
pub fn normalize_reversed(raw_r: &[u8], raw_s: &[u8]) -> (res: Result<Vec<u8>, QuoteError>)
    ensures
        match res {
            Ok(v) => spec_normalize(raw_r@.reverse(), raw_s@.reverse()) == Ok::<Seq<u8>, QuoteError>(
                v@,
            ),
            Err(e) => spec_normalize(raw_r@.reverse(), raw_s@.reverse()) == Err::<
                Seq<u8>,
                QuoteError,
            >(e),
        },
{
    let r = reversed(raw_r);
    let s = reversed(raw_s);
    normalize(r.as_slice(), s.as_slice())
}

/// Stripping leaves at least one digit of a number that has one, and never
/// adds any.
pub proof fn lemma_strip_len(bytes: Seq<u8>)
    ensures
        strip_leading_zeroes(bytes).len() <= bytes.len(),
        bytes.len() > 0 ==> strip_leading_zeroes(bytes).len() > 0,
    decreases bytes.len(),
{
    if bytes.len() > 1 && bytes[0] == 0 {
        lemma_strip_len(bytes.skip(1));
    }
}

/// An integer's encoding is at most seven bytes longer than its digits,
/// and at least three bytes long where there is a digit.
pub proof fn lemma_uint_len(bytes: Seq<u8>)
    ensures
        der_uint(bytes).len() <= bytes.len() + 7,
        bytes.len() > 0 ==> der_uint(bytes).len() >= 3,
{
    lemma_strip_len(bytes);
}

/// Success is owed: a signature whose two numbers each have a digit and are
/// together shorter than the encoder's maximum by twenty bytes or more has
/// an encoding.
pub proof fn lemma_normalize_succeeds(r: Seq<u8>, s: Seq<u8>)
    requires
        r.len() > 0,
        s.len() > 0,
        r.len() + s.len() + 20 <= DER_MAX_LEN,
    ensures
        spec_normalize(r, s) is Ok,
{
    lemma_uint_len(r);
    lemma_uint_len(s);
}

/// Reversing a field twice gives the field back.
pub proof fn lemma_reverse_twice(bytes: Seq<u8>)
    ensures
        bytes.reverse().reverse() == bytes,
{
    assert(bytes.reverse().reverse() =~= bytes);
}

/// Whether every byte of `bytes` is zero.
pub open spec fn all_zero(bytes: Seq<u8>) -> bool {
    forall|i: int| 0 <= i < bytes.len() ==> bytes[i] == 0
}

/// A number whose digits are all zero, however many there are, is encoded
/// as the integer of the single digit zero.
pub proof fn lemma_zero_is_one_digit(bytes: Seq<u8>)
    requires
        bytes.len() > 0,
        all_zero(bytes),
    ensures
        strip_leading_zeroes(bytes) == seq![0u8],
        der_uint(bytes) == seq![TAG_INTEGER, 1u8, 0u8],
    decreases bytes.len(),
{
    if bytes.len() > 1 {
        assert(bytes[0] == 0);
        assert(all_zero(bytes.skip(1))) by {
            assert forall|i: int| 0 <= i < bytes.skip(1).len() implies bytes.skip(1)[i] == 0 by {
                assert(bytes.skip(1)[i] == bytes[i + 1]);
            }
        }
        lemma_zero_is_one_digit(bytes.skip(1));
    } else {
        assert(bytes[0] == 0);
        assert(bytes =~= seq![0u8]);
    }
    assert(der_uint(bytes) =~= seq![TAG_INTEGER, 1u8, 0u8]);
}

/// A stored field of zero bytes normalizes as the number zero: reversing
/// keeps it all zero, and the encoding is the integer of one zero digit.
pub proof fn lemma_zero_field_normalizes(raw: Seq<u8>)
    requires
        raw.len() > 0,
        all_zero(raw),
    ensures
        der_uint(raw.reverse()) == seq![TAG_INTEGER, 1u8, 0u8],
{
    assert(all_zero(raw.reverse()));
    lemma_zero_is_one_digit(raw.reverse());
}

/// A signature whose first number is stored as zero bytes only has the
/// integer of one zero digit as its first integer; with the second number
/// it is the same.
pub proof fn lemma_normalize_zero(raw_r: Seq<u8>, raw_s: Seq<u8>)
    requires
        raw_r.len() > 0,
        raw_s.len() > 0,
        raw_r.len() + raw_s.len() + 20 <= DER_MAX_LEN,
    ensures
        all_zero(raw_r) ==> spec_normalize(raw_r.reverse(), raw_s.reverse()) == Ok::<
            Seq<u8>,
            QuoteError,
        >(der_sequence(seq![TAG_INTEGER, 1u8, 0u8] + der_uint(raw_s.reverse()))),
        all_zero(raw_s) ==> spec_normalize(raw_r.reverse(), raw_s.reverse()) == Ok::<
            Seq<u8>,
            QuoteError,
        >(der_sequence(der_uint(raw_r.reverse()) + seq![TAG_INTEGER, 1u8, 0u8])),
{
    lemma_normalize_succeeds(raw_r.reverse(), raw_s.reverse());
    if all_zero(raw_r) {
        lemma_zero_field_normalizes(raw_r);
    }
    if all_zero(raw_s) {
        lemma_zero_field_normalizes(raw_s);
    }
}

} // verus!
