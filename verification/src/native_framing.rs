//! Chrome native-messaging frames: a 32-bit length in the machine's byte
//! order followed by that many body bytes.

use vstd::prelude::*;

use crate::byte_io::{fill_step, flush, native_u32, read_retrying, FillStep, u32_from_native, u32_to_native, write_all};

verus! {

/// Largest request frame the host accepts from Chrome.
pub const MAX_REQUEST_FRAME_BYTES: usize = 140 * 1024 * 1024;

/// Largest response frame Chrome accepts from a native host.
pub const MAX_RESPONSE_FRAME_BYTES: usize = 1024 * 1024;

/// Why a native-messaging frame could not be read or written.
#[derive(Debug)]
pub enum FrameError {
    TruncatedPrefix,
    TruncatedBody,
    TooLarge,
    Io(std::io::Error),
}

/// What one read of a length prefix means: `Ok(Some(n))` when `n` of its
/// bytes are in place now, `Ok(None)` when the input ended cleanly before
/// it, `TruncatedPrefix` when the input ended inside it, and the read's own
/// failure as I/O.
pub fn prefix_progress(step: FillStep) -> (r: Result<Option<usize>, FrameError>)
    ensures
        match step {
            FillStep::Filled(n) => r == Ok::<Option<usize>, FrameError>(Some(n)),
            FillStep::EndBeforeField => r == Ok::<Option<usize>, FrameError>(None),
            FillStep::EndInsideField => r matches Err(FrameError::TruncatedPrefix),
            FillStep::Failed(e) => r == Err::<Option<usize>, FrameError>(FrameError::Io(e)),
        },
{
    match step {
        FillStep::Filled(n) => Ok(Some(n)),
        FillStep::EndBeforeField => Ok(None),
        FillStep::EndInsideField => Err(FrameError::TruncatedPrefix),
        FillStep::Failed(e) => Err(FrameError::Io(e)),
    }
}

/// What one read of a body means: `Ok(n)` when `n` of its bytes are in
/// place now, `TruncatedBody` when the input ended before the body was
/// complete, and the read's own failure as I/O.
pub fn body_progress(step: FillStep) -> (r: Result<usize, FrameError>)
    ensures
        match step {
            FillStep::Filled(n) => r == Ok::<usize, FrameError>(n),
            FillStep::EndBeforeField => r matches Err(FrameError::TruncatedBody),
            FillStep::EndInsideField => r matches Err(FrameError::TruncatedBody),
            FillStep::Failed(e) => r == Err::<usize, FrameError>(FrameError::Io(e)),
        },
{
    match step {
        FillStep::Filled(n) => Ok(n),
        FillStep::EndBeforeField => Err(FrameError::TruncatedBody),
        FillStep::EndInsideField => Err(FrameError::TruncatedBody),
        FillStep::Failed(e) => Err(FrameError::Io(e)),
    }
}

/// Reads one frame's prefix: `Ok(None)` at a clean end of input, the
/// native-order length otherwise.
fn read_prefix<R: std::io::Read>(reader: &mut R) -> (r: Result<Option<u32>, FrameError>)
    ensures
        r matches Err(e) ==> e is TruncatedPrefix || e is Io,
{
    let mut prefix = [0u8; 4];
    let mut prefix_read: usize = 0;
    while prefix_read < 4
        invariant
            prefix_read <= 4,
            prefix@.len() == 4,
        decreases 4 - prefix_read,
    {
        match prefix_progress(fill_step(prefix_read, 4, read_retrying(reader, &mut prefix, prefix_read))) {
            Ok(Some(count)) => prefix_read = count,
            Ok(None) => return Ok(None),
            Err(error) => return Err(error),
        }
    }
    Ok(Some(u32_from_native(prefix)))
}

/// The body length a frame announcing `announced` bytes may have: the
/// announced length when it is within `max_bytes`, `TooLarge` otherwise.
/// It is decided before any body is allocated.
pub fn frame_length_verdict(announced: u32, max_bytes: usize) -> (r: Result<usize, FrameError>)
    ensures
        announced <= max_bytes ==> (r matches Ok(n) && n == announced),
        announced > max_bytes ==> r matches Err(FrameError::TooLarge),
{
    let length = announced as usize;
    if length > max_bytes {
        Err(FrameError::TooLarge)
    } else {
        Ok(length)
    }
}

/// Reads one Chrome native-messaging frame, or `None` at a clean end of input.
///
/// A length above `max_bytes` is refused before any body is allocated; a body
/// cut short is `TruncatedBody`, a prefix cut short `TruncatedPrefix`.
///
/// Which of these comes depends on the bytes the reader delivers, which the
/// contract cannot name. Each read is judged by `fill_step`, its meaning for
/// the prefix by `prefix_progress` and for the body by `body_progress`, and
/// the announced length by `frame_length_verdict`; this function returns
/// what they decide.
pub fn read_frame<R: std::io::Read>(reader: &mut R, max_bytes: usize) -> (r: Result<
    Option<Vec<u8>>,
    FrameError,
>)
    ensures
        r matches Ok(Some(body)) ==> body@.len() <= max_bytes && body@.len() <= u32::MAX,
        r matches Err(FrameError::TooLarge) ==> max_bytes < u32::MAX,
{
    let length = match read_prefix(reader) {
        Ok(Some(announced)) => match frame_length_verdict(announced, max_bytes) {
            Ok(length) => length,
            Err(error) => return Err(error),
        },
        Ok(None) => return Ok(None),
        Err(error) => return Err(error),
    };
    let mut body = vec![0u8; length];
    let mut body_read: usize = 0;
    while body_read < length
        invariant
            body_read <= length,
            body@.len() == length,
            length <= max_bytes,
        decreases length - body_read,
    {
        match body_progress(fill_step(body_read, length, read_retrying(reader, body.as_mut_slice(), body_read))) {
            Ok(count) => body_read = count,
            Err(error) => return Err(error),
        }
    }
    Ok(Some(body))
}

/// The body fits both the configured limit and the 32-bit length field.
pub open spec fn frame_fits(len: nat, max_bytes: nat) -> bool {
    len <= max_bytes && len <= u32::MAX
}

/// The prefix that announces a body of `len` bytes.
pub fn frame_prefix(len: u32) -> (r: [u8; 4])
    ensures
        native_u32(r@) == len as int,
{
    u32_to_native(len)
}

/// Writes exactly one Chrome native-messaging frame and flushes the writer.
///
/// A body above `max_bytes` or above the 32-bit length field is refused
/// with `TooLarge` before anything is written.
pub fn write_frame<W: std::io::Write>(writer: &mut W, body: &[u8], max_bytes: usize) -> (r:
    Result<(), FrameError>)
    ensures
        !frame_fits(body@.len(), max_bytes as nat) <==> r matches Err(FrameError::TooLarge),
        r matches Err(FrameError::TooLarge) ==> *final(writer) == *old(writer),
        r is Err ==> r matches Err(FrameError::TooLarge) || r matches Err(FrameError::Io(_)),
{
    if body.len() > max_bytes || body.len() > u32::MAX as usize {
        return Err(FrameError::TooLarge);
    }
    let prefix = frame_prefix(body.len() as u32);
    match write_all(writer, &prefix) {
        Ok(()) => {},
        Err(error) => return Err(FrameError::Io(error)),
    }
    match write_all(writer, body) {
        Ok(()) => {},
        Err(error) => return Err(FrameError::Io(error)),
    }
    match flush(writer) {
        Ok(()) => Ok(()),
        Err(error) => Err(FrameError::Io(error)),
    }
}

} // verus!
