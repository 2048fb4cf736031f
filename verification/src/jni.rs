//! Buffer rules of the JNI entry point used by the Android adapter, on top
//! of the C entry point's codes: `-1` a non-positive shape (checked first);
//! `-4` the buffer is not a direct buffer, its address is unavailable or not
//! aligned for sample access, or its capacity is unavailable; `-5` its
//! capacity is too small for the declared `bands * frames_per_band` shape.

use vstd::prelude::*;
use crate::ffi::DVC_INVALID_ARGS;

verus! {

/// The buffer is not usable as a direct sample buffer.
pub const JNI_BAD_BUFFER: i32 = -4;
/// The buffer is smaller than the declared shape.
pub const JNI_BUFFER_TOO_SMALL: i32 = -5;
/// Width in bytes (and alignment) of one audio sample.
pub const SAMPLE_BYTES: usize = 4;

/// The direct-buffer address must be available and sample-aligned.
pub fn check_buffer_address(addr: Option<usize>) -> (r: Result<usize, i32>)
    ensures
        r == match addr {
            None => Err::<usize, i32>(JNI_BAD_BUFFER),
            Some(a) => if a % SAMPLE_BYTES == 0 { Ok::<usize, i32>(a) } else { Err::<usize, i32>(JNI_BAD_BUFFER) },
        },
{
    match addr {
        None => Err(JNI_BAD_BUFFER),
        Some(a) => if a % SAMPLE_BYTES != 0 { Err(JNI_BAD_BUFFER) } else { Ok(a) },
    }
}

/// The direct-buffer capacity (in bytes) must be available and hold
/// `bands * frames_per_band` samples; the product is exact, so a shape
/// whose byte size exceeds every capacity is always too small.
pub fn check_buffer_capacity(bands: usize, frames_per_band: usize, capacity: Option<usize>) -> (r: Result<(), i32>)
    ensures
        r == match capacity {
            None => Err::<(), i32>(JNI_BAD_BUFFER),
            Some(c) => if c < bands * frames_per_band * SAMPLE_BYTES {
                Err::<(), i32>(JNI_BUFFER_TOO_SMALL)
            } else {
                Ok::<(), i32>(())
            },
        },
{
    match capacity {
        None => Err(JNI_BAD_BUFFER),
        Some(c) => {
            let needed = match bands.checked_mul(frames_per_band) {
                Some(n) => n.checked_mul(SAMPLE_BYTES),
                None => {
                    proof {
                        assert(bands * frames_per_band <= bands * frames_per_band * SAMPLE_BYTES) by (nonlinear_arith)
                            requires bands * frames_per_band >= 0;
                    }
                    None
                },
            };
            match needed {
                Some(n) => if c < n { Err(JNI_BUFFER_TOO_SMALL) } else { Ok(()) },
                None => Err(JNI_BUFFER_TOO_SMALL),
            }
        },
    }
}

/// All buffer checks of the JNI processing entry point, in its order: a
/// non-positive shape is invalid (`-1`) before the buffer is looked at;
/// then the address (`-4`), then the capacity (`-4` or `-5`). On success
/// gives the sample-aligned buffer address to process.
pub fn check_direct_buffer(bands: i32, frames_per_band: i32, addr: Option<usize>, capacity: Option<usize>) -> (r: Result<usize, i32>)
    ensures
        r == if bands <= 0 || frames_per_band <= 0 {
            Err::<usize, i32>(DVC_INVALID_ARGS)
        } else {
            match addr {
                None => Err::<usize, i32>(JNI_BAD_BUFFER),
                Some(a) => if a % SAMPLE_BYTES != 0 {
                    Err::<usize, i32>(JNI_BAD_BUFFER)
                } else {
                    match capacity {
                        None => Err::<usize, i32>(JNI_BAD_BUFFER),
                        Some(c) => if c < bands * frames_per_band * SAMPLE_BYTES {
                            Err::<usize, i32>(JNI_BUFFER_TOO_SMALL)
                        } else {
                            Ok::<usize, i32>(a)
                        },
                    }
                },
            }
        },
{
    if bands <= 0 || frames_per_band <= 0 {
        return Err(DVC_INVALID_ARGS);
    }
    let a = check_buffer_address(addr)?;
    check_buffer_capacity(bands as usize, frames_per_band as usize, capacity)?;
    Ok(a)
}

} // verus!
