//! The compression transducer: drain loops over the codec and the pull-step
//! state machine behind the asynchronous stream adapter.

use vstd::prelude::*;

use crate::codec::{codec_compress, codec_end_stream, codec_new, fault_text, stall_debt, CodecHandle};

verus! {

/// A fault, tagged with its origin: the codec itself, or the upstream
/// source whose own error type `E` is passed through unmodified.
pub enum CompressError<E> {
    ZstdError(zstd_seekable::Error),
    Underlying(E),
}

impl<E> CompressError<E> {
    /// True exactly on codec-originated faults.
    pub fn is_codec_fault(&self) -> (r: bool)
        ensures
            r == (self is ZstdError),
    {
        matches!(self, CompressError::ZstdError(_))
    }

    /// True exactly on faults passed through from the upstream source.
    pub fn is_upstream_fault(&self) -> (r: bool)
        ensures
            r == (self is Underlying),
    {
        matches!(self, CompressError::Underlying(_))
    }

    /// A human-readable rendering for diagnostics.  The upstream payload is
    /// opaque here (no trait is assumed of `E`), so it is named, not shown.
    pub fn describe(&self) -> String {
        match self {
            CompressError::ZstdError(e) => fault_text(e),
            CompressError::Underlying(_) => "error reported by the upstream source".to_owned(),
        }
    }
}

/// The visible outcome of feeding one upstream event to the transducer.
pub enum Step<E> {
    /// One produced element: a non-empty run of compressed bytes.
    Output(Vec<u8>),
    /// One produced error element.
    Fault(CompressError<E>),
    /// The chunk was absorbed without a full frame coming out; fetch the
    /// next upstream item before anything becomes visible.
    Again,
    /// No more elements, now or ever.
    Done,
}

/// The compression transducer core: a stateful seekable compressor driven
/// chunk by chunk, finalized exactly once.
pub struct Compress {
    codec: CodecHandle,
    wrote_seek_table: bool,
    fed: Ghost<Seq<u8>>,
    emitted: Ghost<Seq<u8>>,
}

impl Compress {
    /// The trailing seek table has been written (or its writing was
    /// attempted and failed); the instance is inert either way.
    pub closed spec fn done(self) -> bool {
        self.wrote_seek_table
    }

    /// All input bytes the codec has consumed so far, in order.
    pub closed spec fn fed(self) -> Seq<u8> {
        self.fed@
    }

    /// All compressed bytes handed out so far, in order.
    pub closed spec fn produced(self) -> Seq<u8> {
        self.emitted@
    }

    /// The finalize drain still has bytes to emit; holds everywhere on the
    /// fault-free path, and is what makes the final tail non-empty.
    pub closed spec fn flushable(self) -> bool {
        0 < self.codec.tail_left@
    }

    /// Creates a transducer over a fresh compressor bound to `level` and
    /// `frame_size`, both fixed for the instance's lifetime; fails when the
    /// codec rejects the configuration.
    pub fn new(level: usize, frame_size: usize) -> (r: Result<Compress, zstd_seekable::Error>)
        requires
            1 <= level,
            1 <= frame_size,
        ensures
            r matches Ok(c) ==> {
                &&& !c.done()
                &&& c.fed() == Seq::<u8>::empty()
                &&& c.produced() == Seq::<u8>::empty()
                &&& c.flushable()
            },
    {
        match codec_new(level, frame_size) {
            Ok(codec) => Ok(Compress {
                codec,
                wrote_seek_table: false,
                fed: Ghost(Seq::empty()),
                emitted: Ghost(Seq::empty()),
            }),
            Err(e) => Err(e),
        }
    }

    /// True once the seek table has been written; afterwards the transducer
    /// yields nothing and must not be fed again.
    pub fn finished(&self) -> (r: bool)
        ensures
            r == self.done(),
    {
        self.wrote_seek_table
    }

    /// Runs one input chunk through the compressor, looping until the codec
    /// has consumed all of it, and returns every byte produced along the
    /// way (possibly none, when the codec buffered the whole chunk below a
    /// frame boundary).  An empty chunk returns empty output without
    /// invoking the codec at all.  A codec failure is returned as is; the
    /// partial output accumulated before it is discarded.
    pub fn compress_input(&mut self, input: &[u8]) -> (r: Result<Vec<u8>, zstd_seekable::Error>)
        requires
            !old(self).done(),
        ensures
            !final(self).done(),
            input@.len() == 0 ==> r is Ok,
            match r {
                Ok(out) => {
                    &&& final(self).fed() == old(self).fed() + input@
                    &&& final(self).produced() == old(self).produced() + out@
                    &&& (0 < input@.len() ==> final(self).flushable())
                    &&& (input@.len() == 0 ==> out@.len() == 0 && *final(self) == *old(self))
                },
                Err(_) => final(self).produced() == old(self).produced(),
            },
    {
        let mut gathered: Vec<u8> = Vec::new();
        if input.len() == 0 {
            proof {
                assert(old(self).fed() + input@ =~= old(self).fed());
                assert(old(self).produced() + gathered@ =~= old(self).produced());
            }
            return Ok(gathered);
        }
        let ghost fed0 = self.fed@;
        let ghost emitted0 = self.emitted@;
        let mut cursor: usize = 0;
        while cursor < input.len()
            invariant
                cursor <= input@.len(),
                !self.wrote_seek_table,
                emitted0 == old(self).produced(),
                self.fed@ == fed0 + input@.subrange(0, cursor as int),
                self.emitted@ == emitted0 + gathered@,
                0 < cursor ==> 0 < self.codec.tail_left@,
            decreases input@.len() - cursor, stall_debt(self.codec),
        {
            match codec_compress(&mut self.codec, input, cursor) {
                Ok(step) => {
                    let (out_chunk, used) = step;
                    self.fed = Ghost(fed0 + input@.subrange(0, (cursor + used) as int));
                    self.emitted = Ghost(self.emitted@ + out_chunk@);
                    push_all(&mut gathered, &out_chunk);
                    cursor = cursor + used;
                    proof {
                        assert(self.emitted@ =~= emitted0 + gathered@);
                    }
                }
                Err(e) => {
                    // The partial output of this call is discarded, so the
                    // handed-out record is rolled back with it.
                    self.emitted = Ghost(emitted0);
                    return Err(e);
                }
            }
        }
        proof {
            assert(input@.subrange(0, input@.len() as int) =~= input@);
        }
        Ok(gathered)
    }

    /// Flushes the compressor's buffered frame and appends the trailing
    /// seek table, draining the codec until a call produces nothing more.
    /// The instance is marked finished on every path, success or failure,
    /// so finalization is never retried; on the fault-free path the tail
    /// returned is non-empty.
    pub fn end_stream(&mut self) -> (r: Result<Vec<u8>, zstd_seekable::Error>)
        requires
            !old(self).done(),
        ensures
            final(self).done(),
            match r {
                Ok(out) => {
                    &&& final(self).fed() == old(self).fed()
                    &&& final(self).produced() == old(self).produced() + out@
                    &&& (old(self).flushable() ==> 0 < out@.len())
                },
                Err(_) => final(self).fed() == old(self).fed() && final(self).produced() == old(
                    self,
                ).produced(),
            },
    {
        self.wrote_seek_table = true;
        let ghost emitted0 = self.emitted@;
        let mut tail: Vec<u8>;
        match codec_end_stream(&mut self.codec) {
            Ok(first) => {
                tail = first;
            }
            Err(e) => {
                return Err(e);
            }
        }
        self.emitted = Ghost(emitted0 + tail@);
        let mut last: usize = tail.len();
        while 0 < last
            invariant
                self.wrote_seek_table,
                emitted0 == old(self).produced(),
                self.fed@ == old(self).fed@,
                self.emitted@ == emitted0 + tail@,
                old(self).flushable() ==> 0 < tail@.len(),
            decreases self.codec.tail_left@, last,
        {
            match codec_end_stream(&mut self.codec) {
                Ok(more) => {
                    last = more.len();
                    self.emitted = Ghost(self.emitted@ + more@);
                    push_all(&mut tail, &more);
                    proof {
                        assert(self.emitted@ =~= emitted0 + tail@);
                    }
                }
                Err(e) => {
                    // The partial tail of this drain is discarded, so the
                    // handed-out record is rolled back with it.
                    self.emitted = Ghost(emitted0);
                    return Err(e);
                }
            }
        }
        Ok(tail)
    }

    /// Feeds one upstream event to the transducer and reports what, if
    /// anything, becomes visible to the consumer.  Upstream completion
    /// triggers the one-time finalize and leaves the transducer finished
    /// whether or not that finalize succeeded; an upstream fault is passed
    /// through with the transducer untouched; a byte chunk is compressed
    /// whole, producing an element exactly when the codec emitted bytes.
    pub fn on_item<E>(&mut self, item: Option<Result<&[u8], E>>) -> (s: Step<E>)
        requires
            !old(self).done(),
        ensures
            match item {
                None => final(self).done() && match s {
                    Step::Output(out) => {
                        &&& 0 < out@.len()
                        &&& final(self).fed() == old(self).fed()
                        &&& final(self).produced() == old(self).produced() + out@
                    },
                    Step::Done => {
                        &&& !old(self).flushable()
                        &&& final(self).fed() == old(self).fed()
                        &&& final(self).produced() == old(self).produced()
                    },
                    Step::Fault(f) => {
                        &&& f is ZstdError
                        &&& final(self).fed() == old(self).fed()
                        &&& final(self).produced() == old(self).produced()
                    },
                    Step::Again => false,
                },
                Some(Err(e)) => *final(self) == *old(self) && s == Step::Fault(
                    CompressError::Underlying(e),
                ),
                Some(Ok(bytes)) => !final(self).done() && (bytes@.len() == 0 ==> s is Again
                    && *final(self) == *old(self)) && match s {
                    Step::Output(out) => {
                        &&& 0 < out@.len()
                        &&& final(self).fed() == old(self).fed() + bytes@
                        &&& final(self).produced() == old(self).produced() + out@
                        &&& final(self).flushable()
                    },
                    Step::Again => {
                        &&& final(self).fed() == old(self).fed() + bytes@
                        &&& final(self).produced() == old(self).produced()
                        &&& (0 < bytes@.len() ==> final(self).flushable())
                    },
                    Step::Fault(f) => f is ZstdError && final(self).produced() == old(
                        self,
                    ).produced(),
                    Step::Done => false,
                },
            },
    {
        match item {
            None => match self.end_stream() {
                Err(e) => Step::Fault(CompressError::ZstdError(e)),
                Ok(compressed_data) => {
                    if compressed_data.len() == 0 {
                        Step::Done
                    } else {
                        Step::Output(compressed_data)
                    }
                }
            },
            Some(Err(e)) => Step::Fault(CompressError::Underlying(e)),
            Some(Ok(bytes)) => match self.compress_input(bytes) {
                Err(e) => Step::Fault(CompressError::ZstdError(e)),
                Ok(compressed_data) => {
                    if compressed_data.len() == 0 {
                        Step::Again
                    } else {
                        Step::Output(compressed_data)
                    }
                }
            },
        }
    }
}

/// Appends every byte of `src` to `dst`.
fn push_all(dst: &mut Vec<u8>, src: &Vec<u8>)
    ensures
        final(dst)@ == old(dst)@ + src@,
{
    let mut i: usize = 0;
    while i < src.len()
        invariant
            i <= src@.len(),
            dst@ == old(dst)@ + src@.subrange(0, i as int),
        decreases src@.len() - i,
    {
        proof {
            assert(old(dst)@ + src@.subrange(0, (i + 1) as int) =~= (old(dst)@
                + src@.subrange(0, i as int)).push(src@[i as int]));
        }
        let b = src[i];
        dst.push(b);
        i = i + 1;
    }
    proof {
        assert(src@.subrange(0, src@.len() as int) =~= src@);
    }
}

} // verus!
