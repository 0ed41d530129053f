//! The trusted boundary around the seekable zstd compressor.
//!
//! Everything the verified code knows about the codec is stated here, on a
//! handful of wrappers around `zstd_seekable::SeekableCStream`.  The handle
//! carries two ghost quantities.  `tail_left` is the number of bytes that
//! the finalize drain (`codec_end_stream`, called until it reports nothing
//! written) still has to produce from the current compressor state; it is
//! well defined at every point — the compressor is a deterministic machine —
//! and it is what lets the finalize loop prove termination and the
//! non-emptiness of the seek-table tail.  `stalled` records the one state
//! in which a compress call accepts no input: a finished frame whose flush
//! overfilled the scratch buffer and is still pending; it is what lets the
//! compress loop prove termination.

use vstd::prelude::*;

verus! {

#[verifier::external_type_specification]
#[verifier::external_body]
pub struct ExSeekableCStream(zstd_seekable::SeekableCStream);

#[verifier::external_type_specification]
#[verifier::external_body]
pub struct ExZstdError(zstd_seekable::Error);

/// A compressor instance together with its reusable scratch buffer, sized
/// once to the codec's declared maximum single-call output.
pub(crate) struct CodecHandle {
    pub(crate) cs: zstd_seekable::SeekableCStream,
    pub(crate) scratch: Vec<u8>,
    /// Ghost: bytes the finalize drain still has to produce from this state.
    pub(crate) tail_left: Ghost<nat>,
    /// Ghost: a finished frame's flush filled the scratch buffer and is
    /// still pending, so the next compress call will take no input.
    pub(crate) stalled: Ghost<bool>,
}

/// One unit of loop measure for a pending frame flush.
pub(crate) open spec fn stall_debt(c: CodecHandle) -> int {
    if c.stalled@ {
        1
    } else {
        0
    }
}

/// Relies on `zstd_seekable::SeekableCStream::new` and
/// `zstd_seekable::CStream::out_size`.  `new` initialises a seekable
/// compressor bound to the given level and frame size; `out_size` is the
/// codec's recommended single-call output-buffer size, used once here to
/// size the scratch buffer.  A positive frame size is demanded so that the
/// frame-accounting loop of `ZSTD_seekable_compressStream` has room to
/// accept input into each frame.  A fresh compressor has an open, empty
/// frame with nothing pending to flush, and its finalize drain always has
/// output pending (at least the empty-frame epilogue and the seek-table
/// skeleton), so it starts unstalled with a positive `tail_left`.
#[verifier::external_body]
pub(crate) fn codec_new(level: usize, frame_size: usize) -> (r: Result<
    CodecHandle,
    zstd_seekable::Error,
>)
    requires
        1 <= level,
        1 <= frame_size,
    ensures
        r matches Ok(h) ==> 0 < h.tail_left@ && !h.stalled@,
{
    let cs = zstd_seekable::SeekableCStream::new(level, frame_size)?;
    let scratch: Vec<u8> = vec![0u8; zstd_seekable::CStream::out_size()];
    Ok(CodecHandle { cs, scratch, tail_left: Ghost(arbitrary()), stalled: Ghost(arbitrary()) })
}

/// Relies on `zstd_seekable::SeekableCStream::compress`: one call against
/// the scratch buffer with the unconsumed suffix `input[from..]`.  On
/// success it returns the bytes this call wrote and the count of input
/// bytes consumed, never more than was offered.  An unstalled call consumes
/// at least one byte: zstd's buffered streaming accepts input into its
/// internal buffer, and the scratch buffer has the codec's own recommended
/// size.  The exception is the stalled state, reached when a call completes
/// a frame whose flush overfills even that buffer: the next call then takes
/// no input (`ZSTD_seekable_compressStream` clamps what it will accept to
/// zero while the frame is unflushed), writes at least one byte of the
/// pending flush, and — the scratch buffer being of recommended size —
/// completes it, leaving the stream ready for input again (see
/// `ZSTD_seekable_compressStream` and `ZSTD_seekable_endFrame` in the
/// crate's vendored C source).  A successful call leaves the finalize tail
/// (closing frame plus seek table) pending and non-empty.
#[verifier::external_body]
pub(crate) fn codec_compress(
    c: &mut CodecHandle,
    input: &[u8],
    from: usize,
) -> (r: Result<(Vec<u8>, usize), zstd_seekable::Error>)
    requires
        from < input@.len(),
    ensures
        match r {
            Ok(step) => {
                &&& from + step.1 <= input@.len()
                &&& (old(c).stalled@ || 1 <= step.1)
                &&& (old(c).stalled@ ==> step.1 == 0 && !final(c).stalled@ && 0 < step.0@.len())
                &&& 0 < final(c).tail_left@
            },
            Err(_) => true,
        },
{
    let (out_pos, in_pos) = c.cs.compress(&mut c.scratch, &input[from..])?;
    Ok((c.scratch[..out_pos].to_vec(), in_pos))
}

/// Relies on `zstd_seekable::SeekableCStream::end_stream`: one step of the
/// finalize drain, returning the bytes this call wrote.  Each call writes
/// what fits of the remaining tail, so the bytes returned never exceed
/// `tail_left` and `tail_left` shrinks by exactly that many; and while any
/// tail is pending, a call with the recommended-size scratch buffer always
/// writes at least one byte, so a call that writes nothing means the frame
/// epilogue and the seek table have been fully emitted
/// (see `ZSTD_seekable_endStream` in the crate's vendored C source).
#[verifier::external_body]
pub(crate) fn codec_end_stream(c: &mut CodecHandle) -> (r: Result<Vec<u8>, zstd_seekable::Error>)
    ensures
        match r {
            Ok(out) => {
                &&& out@.len() <= old(c).tail_left@
                &&& final(c).tail_left@ == old(c).tail_left@ - out@.len()
                &&& (0 < old(c).tail_left@ ==> 0 < out@.len())
            },
            Err(_) => true,
        },
{
    let n = c.cs.end_stream(&mut c.scratch)?;
    Ok(c.scratch[..n].to_vec())
}

/// Relies on the `Display` rendering of `zstd_seekable::Error`, for
/// diagnostics only; nothing is claimed of the text.
#[verifier::external_body]
pub(crate) fn fault_text(e: &zstd_seekable::Error) -> String {
    format!("{}", e)
}

} // verus!
