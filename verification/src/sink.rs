//! The push-based synchronous sink over the same compressor core.

use vstd::prelude::*;

use crate::compress::Compress;

verus! {

/// A buffered-writer-shaped front over the compressor: each `write`
/// consumes its whole chunk and hands back the bytes for the downstream
/// destination; `finalize` consumes the sink, so the one-time finalize
/// cannot be reached twice through this interface.
pub struct CompressSink {
    core: Compress,
}

impl CompressSink {
    /// The sink is still writable: its one-time finalize has not run.
    pub closed spec fn wf(self) -> bool {
        !self.core.done()
    }

    /// All input bytes accepted so far, in order.
    pub closed spec fn fed(self) -> Seq<u8> {
        self.core.fed()
    }

    /// All compressed bytes handed back so far, in order.
    pub closed spec fn produced(self) -> Seq<u8> {
        self.core.produced()
    }

    /// The finalize drain still has bytes to emit; holds everywhere on the
    /// fault-free path.
    pub closed spec fn flushable(self) -> bool {
        self.core.flushable()
    }

    /// Creates a sink over a fresh compressor bound to `level` and
    /// `frame_size`; fails when the codec rejects the configuration.
    pub fn new(level: usize, frame_size: usize) -> (r: Result<CompressSink, zstd_seekable::Error>)
        requires
            1 <= level,
            1 <= frame_size,
        ensures
            r matches Ok(s) ==> {
                &&& s.wf()
                &&& s.fed() == Seq::<u8>::empty()
                &&& s.produced() == Seq::<u8>::empty()
                &&& s.flushable()
            },
    {
        match Compress::new(level, frame_size) {
            Ok(core) => Ok(CompressSink { core }),
            Err(e) => Err(e),
        }
    }

    /// Compresses one chunk, consuming all of it — a caller never has to
    /// re-supply a remainder — and returns the bytes to forward to the
    /// downstream destination (possibly none, when the codec buffered the
    /// chunk below a frame boundary).  An empty chunk produces nothing and
    /// leaves the codec untouched.
    pub fn write(&mut self, input: &[u8]) -> (r: Result<Vec<u8>, zstd_seekable::Error>)
        requires
            old(self).wf(),
        ensures
            final(self).wf(),
            input@.len() == 0 ==> r is Ok,
            match r {
                Ok(out) => {
                    &&& final(self).fed() == old(self).fed() + input@
                    &&& final(self).produced() == old(self).produced() + out@
                    &&& (0 < input@.len() ==> final(self).flushable())
                    &&& (input@.len() == 0 ==> out@.len() == 0 && *final(self) == *old(self))
                },
                Err(_) => final(self).produced() == old(self).produced(),
            },
    {
        self.core.compress_input(input)
    }

    /// The one-time finalize: flushes the compressor's buffered frame,
    /// appends the trailing seek table, and returns those tail bytes for
    /// the downstream destination — non-empty on the fault-free path, so
    /// the container ends seekable.  Consuming `self` makes a second call
    /// unwritable; explicit finalize is the supported way to observe a
    /// finalize failure.
    pub fn finalize(self) -> (r: Result<Vec<u8>, zstd_seekable::Error>)
        requires
            self.wf(),
        ensures
            match r {
                Ok(out) => self.flushable() ==> 0 < out@.len(),
                Err(_) => true,
            },
    {
        let mut core = self.core;
        core.end_stream()
    }
}

} // verus!
