//! Typed errors for every failure the layer can surface.
//!
//! Foreign-call failures carry the numeric status code together with an
//! operation label; end-of-stream and drained are distinguished from
//! generic failure so callers can stop iteration cleanly; precondition
//! and validation failures are their own variants.  No error is fatal:
//! all are recoverable at the call site.

use vstd::prelude::*;

verus! {

/// Status code the model returns when a named input cannot be found.
pub const CODE_NOT_FOUND: i32 = -2;

/// Status code the model returns for a call made after end-of-stream.
pub const CODE_EOF: i32 = -541478725;

/// Status code the model returns for a call on an unusable argument,
/// such as opening a context with no codec.
pub const CODE_INVALID: i32 = -22;

#[derive(Clone, Copy, Debug, PartialEq, Eq, Structural)]
pub enum Error {
    /// Opening an input failed with the given foreign status code.
    OpenInputFailed(i32),
    /// Reading stream information after open failed.
    FindStreamInfoFailed(i32),
    /// Copying codec parameters into a codec context failed.
    ParametersToContextFailed(i32),
    /// Opening a codec context failed.
    OpenCodecFailed(i32),
    /// Submitting a packet to a decoder failed.
    SendPacketFailed(i32),
    /// Receiving a frame from a decoder failed.
    ReceiveFrameFailed(i32),
    /// A decode operation was invoked before the decoder was opened.
    DecoderNotOpen,
    /// No decoder exists for the requested codec.
    DecoderNotFound,
    /// The codec is not an audio codec.
    NotAudio,
    /// A foreign codec identifier outside the supported set.
    UnsupportedCodec(u32),
    /// A sample-buffer plane index past the number of planes.
    InvalidPlaneIndex,
    /// A sample type that does not match the buffer's format and
    /// channel count.
    UnsupportedSampleType,
    /// The packet source is exhausted; not a failure.
    EndOfStream,
    /// A draining decoder has yielded its last buffered frame; not a
    /// failure.
    Drained,
    /// The decoder has no buffered frame yet and is not draining.
    Again,
    /// A rational could not be reduced exactly within the target range.
    InexactRational,
}

} // verus!
