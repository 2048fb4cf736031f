//! Verified control core of a client-side voice-clarity engine (48 kHz mono,
//! 10 ms frames): the index plan of the three-band filterbank, the banded
//! rate policy, the voice-activity hangover, and the argument and status-code
//! rules of the C and JNI entry points.

pub mod bands;
pub mod engine;
pub mod ffi;
pub mod jni;
pub mod vad;

use vstd::prelude::*;

verus! {

/// Sample rate the core operates at. The host must resample to this.
pub const SAMPLE_RATE: u32 = 48_000;
/// Frame size in samples (10 ms @ 48 kHz).
pub const FRAME_SIZE: usize = 480;

/// Whether the chain touches a frame: only when enabled and only a full
/// `FRAME_SIZE` frame. A disabled chain is a bit-exact passthrough, and a
/// partial frame is left untouched.
pub fn processes_frame(enabled: bool, frame_len: usize) -> (r: bool)
    ensures
        r == (enabled && frame_len == FRAME_SIZE),
        !enabled ==> !r,
        frame_len != FRAME_SIZE ==> !r,
{
    enabled && frame_len == FRAME_SIZE
}

} // verus!
