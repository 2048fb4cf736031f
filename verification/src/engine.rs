//! The denoiser engines.

use vstd::prelude::*;

verus! {

/// Reference engine: leaves the signal untouched. Lets the whole chain be
/// built and exercised without any model.
#[derive(Clone, Copy, Debug, Default)]
pub struct PassthroughDenoiser;

} // verus!
