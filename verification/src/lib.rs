//! Adapters that drive a seekable zstd compressor over chunked input.
//!
//! The codec itself lives in the `zstd-seekable` crate and is reached only
//! through the narrow trusted boundary in `codec`.  Everything above that
//! boundary is verified: the drain loops that feed partial input into the
//! compressor, the pull-step state machine that backs an asynchronous
//! stream adapter, and the synchronous sink whose `finalize` consumes it.

mod codec;
pub mod compress;
pub mod sink;
