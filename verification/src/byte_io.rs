//! Byte-order helpers and the trusted edge to `std::io` readers and writers.
//!
//! Everything a reader delivers depends on the world outside the process, so
//! the contracts here state only what holds of every outcome.

use vstd::prelude::*;
use vstd::endian::{endianness, Endian};

verus! {

/// The value of four bytes read least significant first.
pub open spec fn le_u32(b: Seq<u8>) -> int {
    b[0] + 256 * b[1] + 65536 * b[2] + 16777216 * b[3]
}

/// The value of four bytes read most significant first.
pub open spec fn be_u32(b: Seq<u8>) -> int {
    16777216 * b[0] + 65536 * b[1] + 256 * b[2] + b[3]
}

/// The value of four bytes in the byte order of the executing machine.
pub open spec fn native_u32(b: Seq<u8>) -> int {
    match endianness() {
        Endian::Little => le_u32(b),
        Endian::Big => be_u32(b),
    }
}

/// Decodes four bytes least significant first.
pub fn u32_from_le(b: [u8; 4]) -> (r: u32)
    ensures
        r as int == le_u32(b@),
{
    let (b0, b1, b2, b3) = (b[0], b[1], b[2], b[3]);
    let r = (b0 as u32) | (b1 as u32) << 8u32 | (b2 as u32) << 16u32 | (b3 as u32) << 24u32;
    assert(r == b0 as u32 + 256 * (b1 as u32) + 65536 * (b2 as u32) + 16777216 * (b3 as u32))
        by (bit_vector)
        requires
            r == (b0 as u32) | (b1 as u32) << 8u32 | (b2 as u32) << 16u32 | (b3 as u32) << 24u32,
    ;
    r
}

/// Encodes a value least significant byte first.
pub fn u32_to_le(x: u32) -> (r: [u8; 4])
    ensures
        le_u32(r@) == x as int,
{
    let b0 = (x & 0xff) as u8;
    let b1 = ((x >> 8u32) & 0xff) as u8;
    let b2 = ((x >> 16u32) & 0xff) as u8;
    let b3 = ((x >> 24u32) & 0xff) as u8;
    assert(x == b0 as u32 + 256 * (b1 as u32) + 65536 * (b2 as u32) + 16777216 * (b3 as u32))
        by (bit_vector)
        requires
            b0 == (x & 0xff) as u8,
            b1 == ((x >> 8u32) & 0xff) as u8,
            b2 == ((x >> 16u32) & 0xff) as u8,
            b3 == ((x >> 24u32) & 0xff) as u8,
    ;
    [b0, b1, b2, b3]
}

/// Calls `u32::from_ne_bytes`. Trusted: the value is read in the byte order
/// of the executing machine.
#[verifier::external_body]
pub(crate) fn u32_from_native(b: [u8; 4]) -> (r: u32)
    ensures
        r as int == native_u32(b@),
{
    u32::from_ne_bytes(b)
}

/// Calls `u32::to_ne_bytes`. Trusted: the bytes are the value in the byte
/// order of the executing machine.
#[verifier::external_body]
pub(crate) fn u32_to_native(x: u32) -> (r: [u8; 4])
    ensures
        native_u32(r@) == x as int,
{
    x.to_ne_bytes()
}

/// `std::io::Error`, carried through untouched.
#[verifier::external_type_specification]
#[verifier::external_body]
pub struct ExIoError(std::io::Error);

/// Calls `Read::read` once on `buf[start..]`. Trusted: the count never
/// exceeds the room offered and bytes before `start` are kept. What was read
/// depends on the reader and is not stated.
#[verifier::external_body]
pub(crate) fn read_some<R: std::io::Read>(reader: &mut R, buf: &mut [u8], start: usize) -> (r: Result<
    usize,
    std::io::Error,
>)
    requires
        start <= old(buf)@.len(),
    ensures
        final(buf)@.len() == old(buf)@.len(),
        final(buf)@.subrange(0, start as int) == old(buf)@.subrange(0, start as int),
        r matches Ok(n) ==> n <= old(buf)@.len() - start,
{
    reader.read(&mut buf[start..])
}

/// Calls `std::io::Error::kind` and compares it with `Interrupted`.
/// Nothing is stated: the error is opaque here.
#[verifier::external_body]
pub(crate) fn is_interrupted(error: &std::io::Error) -> bool {
    error.kind() == std::io::ErrorKind::Interrupted
}

/// Most interrupted reads retried in a row before the interruption is
/// reported as the read's failure.
pub const MAX_INTERRUPTED_RETRIES: u64 = 0xffff_ffff_ffff_ffff;

/// Reads into `buf[start..]`, reading again while a read is interrupted (up
/// to `MAX_INTERRUPTED_RETRIES` times in a row), and returns the first count
/// or other failure.
pub(crate) fn read_retrying<R: std::io::Read>(reader: &mut R, buf: &mut [u8], start: usize) -> (r: Result<
    usize,
    std::io::Error,
>)
    requires
        start <= old(buf)@.len(),
    ensures
        final(buf)@.len() == old(buf)@.len(),
        final(buf)@.subrange(0, start as int) == old(buf)@.subrange(0, start as int),
        r matches Ok(n) ==> n <= old(buf)@.len() - start,
{
    let mut retries_left: u64 = MAX_INTERRUPTED_RETRIES;
    loop
        invariant
            start <= buf@.len(),
            buf@.len() == old(buf)@.len(),
            buf@.subrange(0, start as int) == old(buf)@.subrange(0, start as int),
        decreases retries_left,
    {
        match read_some(reader, buf, start) {
            Ok(count) => return Ok(count),
            Err(error) => {
                if retries_left == 0 || !is_interrupted(&error) {
                    return Err(error);
                }
                retries_left = retries_left - 1;
            },
        }
    }
}

/// Where the filling of a fixed-size field stands after one read.
pub enum FillStep {
    /// This many bytes of the field are in place now.
    Filled(usize),
    /// The input ended before the field began.
    EndBeforeField,
    /// The input ended inside the field.
    EndInsideField,
    /// The read failed.
    Failed(std::io::Error),
}

/// The step after a read returned `read` while `filled` of a field's `size`
/// bytes were in place: a zero count is the end of the input (before the
/// field when none of it was filled), a positive count adds to the filled
/// bytes, and a failure is handed on.
pub fn fill_step(filled: usize, size: usize, read: Result<usize, std::io::Error>) -> (r: FillStep)
    requires
        filled < size,
        read matches Ok(n) ==> n <= size - filled,
    ensures
        match read {
            Ok(n) => if n == 0 {
                if filled == 0 {
                    r is EndBeforeField
                } else {
                    r is EndInsideField
                }
            } else {
                r == FillStep::Filled((filled + n) as usize)
            },
            Err(e) => r == FillStep::Failed(e),
        },
{
    match read {
        Ok(count) => {
            if count == 0 {
                if filled == 0 {
                    FillStep::EndBeforeField
                } else {
                    FillStep::EndInsideField
                }
            } else {
                FillStep::Filled(filled + count)
            }
        },
        Err(error) => FillStep::Failed(error),
    }
}

/// Calls `Read::read_exact`. Trusted: the buffer keeps its length. What was
/// read depends on the reader and is not stated.
#[verifier::external_body]
pub(crate) fn read_exact<R: std::io::Read>(reader: &mut R, buf: &mut [u8]) -> (r: Result<
    (),
    std::io::Error,
>)
    ensures
        final(buf)@.len() == old(buf)@.len(),
{
    reader.read_exact(buf)
}

/// Calls `std::io::Error::kind` and compares it with `UnexpectedEof`.
/// Nothing is stated: the error is opaque here.
#[verifier::external_body]
pub(crate) fn is_unexpected_eof(error: &std::io::Error) -> bool {
    error.kind() == std::io::ErrorKind::UnexpectedEof
}

/// Calls `Write::write_all`. Nothing is stated: success depends on the writer.
#[verifier::external_body]
pub(crate) fn write_all<W: std::io::Write>(writer: &mut W, bytes: &[u8]) -> Result<(), std::io::Error> {
    writer.write_all(bytes)
}

/// Calls `Write::flush`. Nothing is stated: success depends on the writer.
#[verifier::external_body]
pub(crate) fn flush<W: std::io::Write>(writer: &mut W) -> Result<(), std::io::Error> {
    writer.flush()
}

/// The eight bytes of `n`, least significant first.
pub open spec fn le_u64_bytes(n: u64) -> Seq<u8> {
    seq![
        (n & 0xff) as u8,
        ((n >> 8u64) & 0xff) as u8,
        ((n >> 16u64) & 0xff) as u8,
        ((n >> 24u64) & 0xff) as u8,
        ((n >> 32u64) & 0xff) as u8,
        ((n >> 40u64) & 0xff) as u8,
        ((n >> 48u64) & 0xff) as u8,
        ((n >> 56u64) & 0xff) as u8,
    ]
}

/// The value of eight bytes read least significant first.
pub open spec fn le_u64(b: Seq<u8>) -> u64 {
    (b[0] as u64) | (b[1] as u64) << 8u64 | (b[2] as u64) << 16u64 | (b[3] as u64) << 24u64 | (
    b[4] as u64) << 32u64 | (b[5] as u64) << 40u64 | (b[6] as u64) << 48u64 | (b[7] as u64)
        << 56u64
}

/// Reading back the little-endian bytes of a value gives the value, and
/// equal byte strings encode equal values.
pub proof fn lemma_le_u64_round_trip(n: u64)
    ensures
        le_u64(le_u64_bytes(n)) == n,
        le_u64_bytes(n).len() == 8,
{
    let b = le_u64_bytes(n);
    let (b0, b1, b2, b3, b4, b5, b6, b7) = (b[0], b[1], b[2], b[3], b[4], b[5], b[6], b[7]);
    assert((b0 as u64) | (b1 as u64) << 8u64 | (b2 as u64) << 16u64 | (b3 as u64) << 24u64 | (
    b4 as u64) << 32u64 | (b5 as u64) << 40u64 | (b6 as u64) << 48u64 | (b7 as u64) << 56u64
        == n) by (bit_vector)
        requires
            b0 == (n & 0xff) as u8,
            b1 == ((n >> 8u64) & 0xff) as u8,
            b2 == ((n >> 16u64) & 0xff) as u8,
            b3 == ((n >> 24u64) & 0xff) as u8,
            b4 == ((n >> 32u64) & 0xff) as u8,
            b5 == ((n >> 40u64) & 0xff) as u8,
            b6 == ((n >> 48u64) & 0xff) as u8,
            b7 == ((n >> 56u64) & 0xff) as u8,
    ;
}

/// Eight bytes are the little-endian encoding of the value they denote.
pub proof fn lemma_le_u64_bytes_of_value(b: Seq<u8>)
    requires
        b.len() == 8,
    ensures
        le_u64_bytes(le_u64(b)) == b,
{
    let (b0, b1, b2, b3, b4, b5, b6, b7) = (b[0], b[1], b[2], b[3], b[4], b[5], b[6], b[7]);
    let v = le_u64(b);
    assert({
        &&& (v & 0xff) as u8 == b0
        &&& ((v >> 8u64) & 0xff) as u8 == b1
        &&& ((v >> 16u64) & 0xff) as u8 == b2
        &&& ((v >> 24u64) & 0xff) as u8 == b3
        &&& ((v >> 32u64) & 0xff) as u8 == b4
        &&& ((v >> 40u64) & 0xff) as u8 == b5
        &&& ((v >> 48u64) & 0xff) as u8 == b6
        &&& ((v >> 56u64) & 0xff) as u8 == b7
    }) by (bit_vector)
        requires
            v == (b0 as u64) | (b1 as u64) << 8u64 | (b2 as u64) << 16u64 | (b3 as u64) << 24u64
                | (b4 as u64) << 32u64 | (b5 as u64) << 40u64 | (b6 as u64) << 48u64 | (b7 as u64)
                << 56u64,
    ;
    assert(le_u64_bytes(v) =~= b);
}

/// Encodes a value least significant byte first.
pub fn u64_to_le(n: u64) -> (r: [u8; 8])
    ensures
        r@ == le_u64_bytes(n),
{
    let r = [
        (n & 0xff) as u8,
        ((n >> 8u64) & 0xff) as u8,
        ((n >> 16u64) & 0xff) as u8,
        ((n >> 24u64) & 0xff) as u8,
        ((n >> 32u64) & 0xff) as u8,
        ((n >> 40u64) & 0xff) as u8,
        ((n >> 48u64) & 0xff) as u8,
        ((n >> 56u64) & 0xff) as u8,
    ];
    assert(r@ =~= le_u64_bytes(n));
    r
}

/// Decodes eight bytes least significant first.
pub fn u64_from_le(b: &[u8]) -> (r: u64)
    requires
        b@.len() == 8,
    ensures
        r == le_u64(b@),
{
    (b[0] as u64) | (b[1] as u64) << 8u64 | (b[2] as u64) << 16u64 | (b[3] as u64) << 24u64 | (
    b[4] as u64) << 32u64 | (b[5] as u64) << 40u64 | (b[6] as u64) << 48u64 | (b[7] as u64)
        << 56u64
}

/// Calls `zeroize::Zeroize::zeroize` on a byte vector. Trusted: the vector
/// is left empty (its bytes are overwritten before it is cleared).
#[verifier::external_body]
pub(crate) fn wipe_bytes(bytes: &mut Vec<u8>)
    ensures
        final(bytes)@.len() == 0,
{
    zeroize::Zeroize::zeroize(bytes)
}

/// Calls `zeroize::Zeroize::zeroize` on a string. Trusted: the string is left
/// empty (its bytes are overwritten before it is cleared).
#[verifier::external_body]
pub(crate) fn wipe_string(text: &mut String)
    ensures
        final(text)@.len() == 0,
{
    zeroize::Zeroize::zeroize(text)
}

} // verus!
