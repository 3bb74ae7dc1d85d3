//! The exact-length cast: the one place where untrusted bytes become a
//! fixed-width record, and the little-endian integer readers built on it.

use vstd::prelude::*;
use crate::error::QuoteError;

verus! {

/// What a cast of `region` to a record of `SIZE` bytes named `label` gives.
pub open spec fn spec_slice_cast<const SIZE: usize>(label: &'static str, region: Seq<u8>) -> Result<
    Seq<u8>,
    QuoteError,
> {
    if region.len() == SIZE {
        Ok(region)
    } else {
        Err(QuoteError::LengthMismatch { label, expected: SIZE, actual: region.len() as usize })
    }
}

/// Reads `region` as a record of exactly `SIZE` bytes.
///
/// A region of any other length is refused: nothing is cut off and nothing
/// is filled in. The record is a copy, so it does not depend on how long the
/// caller keeps the buffer.
pub fn slice_cast<const SIZE: usize>(label: &'static str, region: &[u8]) -> (res: Result<
    [u8; SIZE],
    QuoteError,
>)
    ensures
        match res {
            Ok(record) => spec_slice_cast::<SIZE>(label, region@) == Ok::<Seq<u8>, QuoteError>(
                record@,
            ),
            Err(e) => spec_slice_cast::<SIZE>(label, region@) == Err::<Seq<u8>, QuoteError>(e),
        },
{
    if region.len() != SIZE {
        return Err(QuoteError::LengthMismatch { label, expected: SIZE, actual: region.len() });
    }
    let mut record: [u8; SIZE] = [0u8; SIZE];
    let mut i: usize = 0;
    while i < SIZE
        invariant
            region@.len() == SIZE,
            i <= SIZE,
            forall|j: int| 0 <= j < i ==> record@[j] == region@[j],
        decreases SIZE - i,
    {
        record[i] = region[i];
        i += 1;
    }
    assert(record@ =~= region@);
    Ok(record)
}

/// The part of `bytes` from `start` up to `end`, as far as `bytes` reaches.
pub open spec fn spec_clipped(bytes: Seq<u8>, start: int, end: int) -> Seq<u8> {
    let to = if end <= bytes.len() {
        end
    } else {
        bytes.len() as int
    };
    let from = if start <= to {
        start
    } else {
        to
    };
    bytes.subrange(from, to)
}

/// The part of `bytes` where a field from `start` up to `end` lies. Of a
/// buffer that ends before `end` it is the part that is there, so that the
/// cast of the field sees how many bytes the field really has.
pub fn clipped(bytes: &[u8], start: usize, end: usize) -> (res: &[u8])
    ensures
        res@ == spec_clipped(bytes@, start as int, end as int),
{
    let len: usize = bytes.len();
    let to: usize = if end <= len {
        end
    } else {
        len
    };
    let from: usize = if start <= to {
        start
    } else {
        to
    };
    &bytes[from..to]
}

/// The `N` bytes of `bytes` that begin at `offset`.
pub(crate) fn array_at<const N: usize>(bytes: &[u8], offset: usize) -> (res: [u8; N])
    requires
        offset + N <= bytes@.len(),
    ensures
        res@ == bytes@.subrange(offset as int, offset + N),
{
    let len: usize = bytes.len();
    let mut field: [u8; N] = [0u8; N];
    let mut i: usize = 0;
    while i < N
        invariant
            offset + N <= len,
            len == bytes@.len(),
            i <= N,
            forall|j: int| 0 <= j < i ==> field@[j] == bytes@[offset + j],
        decreases N - i,
    {
        field[i] = bytes[offset + i];
        i += 1;
    }
    assert(field@ =~= bytes@.subrange(offset as int, offset + N));
    field
}

/// Whether `a` and `b` hold the same bytes.
pub fn bytes_eq(a: &[u8], b: &[u8]) -> (res: bool)
    ensures
        res == (a@ == b@),
{
    if a.len() != b.len() {
        return false;
    }
    let mut i: usize = 0;
    while i < a.len()
        invariant
            a@.len() == b@.len(),
            i <= a@.len(),
            forall|j: int| 0 <= j < i ==> a@[j] == b@[j],
        decreases a@.len() - i,
    {
        if a[i] != b[i] {
            return false;
        }
        i += 1;
    }
    assert(a@ =~= b@);
    true
}

/// The number whose little-endian digits are the two bytes of `bytes`.
pub open spec fn spec_u16_le(bytes: Seq<u8>) -> u16
    recommends
        bytes.len() == 2,
{
    (bytes[0] + bytes[1] * 0x100) as u16
}

/// The number whose little-endian digits are the four bytes of `bytes`.
pub open spec fn spec_u32_le(bytes: Seq<u8>) -> u32
    recommends
        bytes.len() == 4,
{
    (bytes[0] + bytes[1] * 0x100 + bytes[2] * 0x1_0000 + bytes[3] * 0x100_0000) as u32
}

/// The number whose little-endian digits are the eight bytes of `bytes`.
pub open spec fn spec_u64_le(bytes: Seq<u8>) -> u64
    recommends
        bytes.len() == 8,
{
    (spec_u32_le(bytes.subrange(0, 4)) + spec_u32_le(bytes.subrange(4, 8)) * 0x1_0000_0000) as u64
}

/// Reads a little-endian `u16`.
pub fn u16_le(bytes: &[u8; 2]) -> (res: u16)
    ensures
        res == spec_u16_le(bytes@),
{
    bytes[0] as u16 + bytes[1] as u16 * 0x100
}

/// Reads a little-endian `u32`.
pub fn u32_le(bytes: &[u8; 4]) -> (res: u32)
    ensures
        res == spec_u32_le(bytes@),
{
    bytes[0] as u32 + bytes[1] as u32 * 0x100 + bytes[2] as u32 * 0x1_0000 + bytes[3] as u32
        * 0x100_0000
}

/// Reads a little-endian `u64`.
pub fn u64_le(bytes: &[u8; 8]) -> (res: u64)
    ensures
        res == spec_u64_le(bytes@),
{
    let low: u64 = bytes[0] as u64 + bytes[1] as u64 * 0x100 + bytes[2] as u64 * 0x1_0000
        + bytes[3] as u64 * 0x100_0000;
    let high: u64 = bytes[4] as u64 + bytes[5] as u64 * 0x100 + bytes[6] as u64 * 0x1_0000
        + bytes[7] as u64 * 0x100_0000;
    low + high * 0x1_0000_0000
}

/// Exact length: a cast accepts a region of exactly the record's width,
/// whatever it holds, and hands it on unchanged; a region of any other
/// length, be it one byte shorter or one byte longer, it refuses with the
/// label, the width and the length that it found.
pub proof fn lemma_cast_exact_width<const SIZE: usize>(label: &'static str, region: Seq<u8>)
    ensures
        region.len() == SIZE ==> spec_slice_cast::<SIZE>(label, region) == Ok::<
            Seq<u8>,
            QuoteError,
        >(region),
        region.len() != SIZE ==> spec_slice_cast::<SIZE>(label, region) == Err::<
            Seq<u8>,
            QuoteError,
        >(QuoteError::LengthMismatch { label, expected: SIZE, actual: region.len() as usize }),
        region.len() == SIZE - 1 || region.len() == SIZE + 1 ==> spec_slice_cast::<SIZE>(
            label,
            region,
        ) is Err,
{
}

} // verus!
