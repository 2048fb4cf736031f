//! Argument and status-code rules of the C entry points used by the mobile
//! adapters.
//!
//! Return codes: `0` success; `-1` invalid arguments (null handle, null
//! buffer, `bands <= 0`, `frames_per_band <= 0`, non-positive sample rate
//! or channel count); `-2` the processor returned an error.

use vstd::prelude::*;
use crate::bands::{BandedError, BandedView, spec_route};

verus! {

/// Success.
pub const DVC_OK: i32 = 0;
/// Invalid arguments.
pub const DVC_INVALID_ARGS: i32 = -1;
/// The processor returned an error.
pub const DVC_CORE_ERROR: i32 = -2;

/// Opaque handle around one banded processor (one per audio stream, owned
/// by a single audio thread).
pub struct DvcHandle<P>(pub P);

/// Arguments of `dvc_init`: a positive sample rate and a positive channel
/// count, else the call is invalid.
pub fn init_args(sample_rate_hz: i32, channels: i32) -> (r: Option<(u32, u32)>)
    ensures
        r == if sample_rate_hz > 0 && channels > 0 {
            Some((sample_rate_hz as u32, channels as u32))
        } else {
            None::<(u32, u32)>
        },
{
    if sample_rate_hz <= 0 || channels <= 0 {
        None
    } else {
        Some((sample_rate_hz as u32, channels as u32))
    }
}

/// Argument of `dvc_reset`: a positive sample rate, else the call is
/// invalid.
pub fn reset_args(new_rate_hz: i32) -> (r: Option<u32>)
    ensures
        r == if new_rate_hz > 0 { Some(new_rate_hz as u32) } else { None::<u32> },
{
    if new_rate_hz <= 0 {
        None
    } else {
        Some(new_rate_hz as u32)
    }
}

/// Arguments of `dvc_process_banded`: a non-null buffer and a positive
/// shape, else the call is invalid. On success gives `(bands,
/// frames_per_band, n)` with `n = bands * frames_per_band` the number of
/// samples the buffer holds.
pub fn process_args(buf_is_null: bool, bands: i32, frames_per_band: i32) -> (r: Option<(usize, usize, usize)>)
    requires
        !buf_is_null && bands > 0 && frames_per_band > 0 ==> bands * frames_per_band <= usize::MAX,
    ensures
        r == if !buf_is_null && bands > 0 && frames_per_band > 0 {
            Some((bands as usize, frames_per_band as usize, (bands * frames_per_band) as usize))
        } else {
            None::<(usize, usize, usize)>
        },
{
    if buf_is_null || bands <= 0 || frames_per_band <= 0 {
        None
    } else {
        let b = bands as usize;
        let f = frames_per_band as usize;
        Some((b, f, b * f))
    }
}

/// Status code of a processor result: `0` on success, `-2` on error.
pub fn status_code(r: Result<(), BandedError>) -> (code: i32)
    ensures
        code == if r is Ok { DVC_OK } else { DVC_CORE_ERROR },
{
    match r {
        Ok(()) => DVC_OK,
        Err(_) => DVC_CORE_ERROR,
    }
}

/// Through the C entry point a buffer always has the declared shape's
/// length, so processing never reports a core error there: with a valid
/// shape the route is `Ok`, whatever the processor's state.
pub proof fn lemma_process_never_core_error(v: BandedView, bands: nat, frames_per_band: nat)
    requires
        bands > 0,
        frames_per_band > 0,
    ensures
        spec_route(v, bands, frames_per_band, bands * frames_per_band).1 is Ok,
{
}

} // verus!
