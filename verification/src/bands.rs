//! Three-band filterbank (48 kHz <-> 3 x 16 kHz, 480 <-> 3 x 160 samples):
//! the polyphase branch plan and the sample-index arithmetic of analysis,
//! synthesis and the sparse FIR core.

use vstd::prelude::*;

verus! {

/// Number of bands (band 0 = 0-8 kHz, band 1 = 8-16 kHz, band 2 = 16-24 kHz).
pub const NUM_BANDS: usize = 3;
/// Full-band frame size: 10 ms @ 48 kHz.
pub const FULL_FRAME: usize = 480;
/// Per-band frame size (each band is downsampled by `NUM_BANDS`).
pub const BAND_FRAME: usize = 160;

/// Polyphase sparsity of the prototype low-pass filter.
pub const SPARSITY: usize = 4;
/// Stride of the sparse FIR taps.
pub const STRIDE: usize = 4;
/// Number of taps of each sparse FIR.
pub const FILTER_SIZE: usize = 4;
/// Number of past input samples each sparse FIR remembers.
pub const MEMORY_SIZE: usize = 15;
/// Number of polyphase branches (`SPARSITY * NUM_BANDS`).
pub const NUM_BRANCHES: usize = 12;
/// Number of branches that carry a non-zero filter.
pub const NUM_NON_ZERO_FILTERS: usize = 10;
/// The first of the two all-zero polyphase branches.
pub const ZERO_FILTER_INDEX_1: usize = 3;
/// The second of the two all-zero polyphase branches.
pub const ZERO_FILTER_INDEX_2: usize = 9;

/// Whether a polyphase branch carries an all-zero filter.
pub open spec fn is_zero_branch(index: int) -> bool {
    index == ZERO_FILTER_INDEX_1 || index == ZERO_FILTER_INDEX_2
}

/// How many all-zero branches come before branch `index`.
pub open spec fn zero_branches_below(index: int) -> int {
    (if ZERO_FILTER_INDEX_1 < index { 1int } else { 0int })
        + (if ZERO_FILTER_INDEX_2 < index { 1int } else { 0int })
}

/// The filter of a branch is its rank among the branches that are not
/// all-zero; the all-zero branches have none.
pub open spec fn filter_of_branch(index: int) -> Option<int> {
    if is_zero_branch(index) {
        None
    } else {
        Some(index - zero_branches_below(index))
    }
}

/// The branch that carries non-zero filter `f` (inverse of `filter_of_branch`).
pub open spec fn branch_of_filter(f: int) -> int {
    f + (if f >= ZERO_FILTER_INDEX_1 { 1int } else { 0int })
      + (if f + 1 >= ZERO_FILTER_INDEX_2 { 1int } else { 0int })
}

/// Maps a polyphase branch index to its non-zero filter index, or `None`
/// for the two all-zero branches.
pub fn non_zero_filter_index(index: usize) -> (r: Option<usize>)
    ensures
        match r {
            None => filter_of_branch(index as int) is None,
            Some(f) => filter_of_branch(index as int) == Some(f as int),
        },
        r is None <==> (index == 3 || index == 9),
        r matches Some(f) ==> f <= index && index <= f + 2,
{
    if index == ZERO_FILTER_INDEX_1 || index == ZERO_FILTER_INDEX_2 {
        None
    } else if index < ZERO_FILTER_INDEX_1 {
        Some(index)
    } else if index < ZERO_FILTER_INDEX_2 {
        Some(index - 1)
    } else {
        Some(index - 2)
    }
}

/// The non-zero branches and the filters correspond one to one: every
/// branch below `NUM_BRANCHES` that is not all-zero gets a filter below
/// `NUM_NON_ZERO_FILTERS`, distinct branches get distinct filters, the
/// order is kept, and every filter is carried by exactly the branch
/// `branch_of_filter(f)`.
pub proof fn lemma_filter_branch_bijection()
    ensures
        forall|i: int|
            0 <= i < NUM_BRANCHES && !is_zero_branch(i) ==> {
                let f = #[trigger] filter_of_branch(i);
                &&& f is Some
                &&& 0 <= f.unwrap() < NUM_NON_ZERO_FILTERS
                &&& branch_of_filter(f.unwrap()) == i
            },
        forall|i: int, j: int|
            0 <= i < j < NUM_BRANCHES && !is_zero_branch(i) && !is_zero_branch(j)
                ==> #[trigger] filter_of_branch(i).unwrap() < #[trigger] filter_of_branch(j).unwrap(),
        forall|f: int|
            0 <= f < NUM_NON_ZERO_FILTERS ==> {
                let b = #[trigger] branch_of_filter(f);
                &&& 0 <= b < NUM_BRANCHES
                &&& !is_zero_branch(b)
                &&& filter_of_branch(b) == Some(f)
            },
{
}

/// The polyphase branch that serves sub-sampling phase `phase` at FIR
/// input shift `in_shift`.
pub open spec fn branch_at(phase: int, in_shift: int) -> int {
    phase + NUM_BANDS * in_shift
}

/// Branch index visited by the analysis and synthesis loops for a
/// sub-sampling phase and an FIR input shift.
pub fn branch_index(phase: usize, in_shift: usize) -> (r: usize)
    requires
        phase < NUM_BANDS,
        in_shift < STRIDE,
    ensures
        r as int == branch_at(phase as int, in_shift as int),
        r < NUM_BRANCHES,
        r % 3 == phase,
        r / 3 == in_shift,
{
    phase + NUM_BANDS * in_shift
}

/// The (phase, in_shift) pairs visited by analysis and synthesis cover
/// the polyphase branches one to one, so each of the non-zero filters is
/// applied exactly once per frame: by the pair `(b % 3, b / 3)` of its
/// branch `b`.
pub proof fn lemma_branch_schedule_covers_filters()
    ensures
        forall|p: int, s: int|
            0 <= p < NUM_BANDS && 0 <= s < STRIDE ==> {
                let b = #[trigger] branch_at(p, s);
                &&& 0 <= b < NUM_BRANCHES
                &&& b % 3 == p
                &&& b / 3 == s
            },
        forall|f: int|
            0 <= f < NUM_NON_ZERO_FILTERS ==> {
                let b = #[trigger] branch_of_filter(f);
                &&& branch_at(b % 3, b / 3) == b
                &&& 0 <= b % 3 < NUM_BANDS
                &&& 0 <= b / 3 < STRIDE
                &&& filter_of_branch(branch_at(b % 3, b / 3)) == Some(f)
            },
        forall|p1: int, s1: int, p2: int, s2: int|
            0 <= p1 < NUM_BANDS && 0 <= s1 < STRIDE && 0 <= p2 < NUM_BANDS && 0 <= s2 < STRIDE
                && #[trigger] branch_at(p1, s1) == #[trigger] branch_at(p2, s2)
                ==> p1 == p2 && s1 == s2,
{
    lemma_filter_branch_bijection();
}

/// Full-band position read by the analysis (downsampling) for phase
/// `phase` and band-rate sample `k`.
pub open spec fn analysis_position(phase: int, k: int) -> int {
    (NUM_BANDS - 1) - phase + NUM_BANDS * k
}

/// Full-band position written by the synthesis (upsampling) for phase
/// `phase` and band-rate sample `k`.
pub open spec fn synthesis_position(phase: int, k: int) -> int {
    phase + NUM_BANDS * k
}

/// Index of the full-band sample that analysis phase `phase` takes as its
/// `k`-th band-rate input.
pub fn analysis_input_index(phase: usize, k: usize) -> (r: usize)
    requires
        phase < NUM_BANDS,
        k < BAND_FRAME,
    ensures
        r as int == analysis_position(phase as int, k as int),
        r < FULL_FRAME,
        r % 3 == 2 - phase,
        r / 3 == k,
{
    (NUM_BANDS - 1) - phase + NUM_BANDS * k
}

/// Index of the full-band sample that synthesis phase `phase` adds its
/// `k`-th band-rate output to.
pub fn synthesis_output_index(phase: usize, k: usize) -> (r: usize)
    requires
        phase < NUM_BANDS,
        k < BAND_FRAME,
    ensures
        r as int == synthesis_position(phase as int, k as int),
        r < FULL_FRAME,
        r % 3 == phase,
        r / 3 == k,
{
    phase + NUM_BANDS * k
}

/// Analysis reads, and synthesis writes, every full-band sample of a frame
/// from exactly one (phase, k) pair: sample `n` belongs to analysis phase
/// `2 - n % 3` and to synthesis phase `n % 3`, both at `k = n / 3`.
pub proof fn lemma_resampling_partitions_frame()
    ensures
        forall|n: int|
            0 <= n < FULL_FRAME ==> {
                &&& 0 <= 2 - n % 3 < NUM_BANDS
                &&& 0 <= n / 3 < BAND_FRAME
                &&& #[trigger] analysis_position(2 - n % 3, n / 3) == n
                &&& synthesis_position(n % 3, n / 3) == n
            },
        forall|p1: int, k1: int, p2: int, k2: int|
            0 <= p1 < NUM_BANDS && 0 <= k1 < BAND_FRAME && 0 <= p2 < NUM_BANDS && 0 <= k2 < BAND_FRAME
                && #[trigger] analysis_position(p1, k1) == #[trigger] analysis_position(p2, k2)
                ==> p1 == p2 && k1 == k2,
        forall|p1: int, k1: int, p2: int, k2: int|
            0 <= p1 < NUM_BANDS && 0 <= k1 < BAND_FRAME && 0 <= p2 < NUM_BANDS && 0 <= k2 < BAND_FRAME
                && #[trigger] synthesis_position(p1, k1) == #[trigger] synthesis_position(p2, k2)
                ==> p1 == p2 && k1 == k2,
{
}

/// First sample of band `band` in a band-major buffer
/// `[b0[0..160], b1[0..160], b2[0..160]]`.
pub fn band_start(band: usize) -> (r: usize)
    requires
        band < NUM_BANDS,
    ensures
        r == band * BAND_FRAME,
        r + BAND_FRAME <= FULL_FRAME,
{
    band * BAND_FRAME
}

/// Where one tap of the sparse FIR core reads its sample: from the filter's
/// memory of past inputs, or from the current band-rate input.
#[derive(Clone, Copy, Debug, PartialEq, Eq, Structural)]
pub enum Tap {
    State(usize),
    Input(usize),
}

/// Position of the sample that tap `i` of output `k` reads, in the history
/// formed by the `MEMORY_SIZE` remembered samples followed by the
/// `BAND_FRAME` current ones.
pub open spec fn history_position(in_shift: int, k: int, i: int) -> int {
    MEMORY_SIZE + k - in_shift - STRIDE * i
}

/// The history position a tap designates.
pub open spec fn tap_position(t: Tap) -> int {
    match t {
        Tap::State(j) => j as int,
        Tap::Input(j) => MEMORY_SIZE + j,
    }
}

/// The sample that tap `i` of output `k` of the sparse FIR core reads, for
/// input shift `in_shift`: output `k` is the sum over `i` of
/// `filter[i]` times that sample. The three cases are those of the core's
/// three loops: outputs before `in_shift` read only the memory, outputs up
/// to `FILTER_SIZE * STRIDE` read the input for their first
/// `min(FILTER_SIZE, 1 + shift / STRIDE)` taps and the memory for the rest,
/// and later outputs read only the input.
pub fn filter_core_tap(in_shift: usize, k: usize, i: usize) -> (t: Tap)
    requires
        in_shift < STRIDE,
        k < BAND_FRAME,
        i < FILTER_SIZE,
    ensures
        tap_position(t) == history_position(in_shift as int, k as int, i as int),
        match t {
            Tap::State(j) => j < MEMORY_SIZE && j + in_shift + STRIDE * i == MEMORY_SIZE + k,
            Tap::Input(j) => j < BAND_FRAME && j + in_shift + STRIDE * i == k,
        },
{
    if k < in_shift {
        Tap::State(MEMORY_SIZE + k - in_shift - STRIDE * i)
    } else if k < FILTER_SIZE * STRIDE {
        let shift = k - in_shift;
        let loop_limit = if 1 + shift / STRIDE < FILTER_SIZE {
            1 + shift / STRIDE
        } else {
            FILTER_SIZE
        };
        if i < loop_limit {
            Tap::Input(shift - STRIDE * i)
        } else {
            Tap::State(MEMORY_SIZE + shift - STRIDE * i)
        }
    } else {
        Tap::Input(k - in_shift - STRIDE * i)
    }
}

/// Index of the current input sample that becomes remembered sample `m`
/// after a frame: the memory keeps the last `MEMORY_SIZE` inputs.
pub fn next_state_source(m: usize) -> (r: usize)
    requires
        m < MEMORY_SIZE,
    ensures
        r == BAND_FRAME - MEMORY_SIZE + m,
        r < BAND_FRAME,
{
    BAND_FRAME - MEMORY_SIZE + m
}

/// Sample rate at which the full chain (denoiser included) runs.
pub const FULL_CHAIN_RATE: u32 = 48_000;

/// Errors of the banded processor.
#[derive(Clone, Copy, Debug, PartialEq, Eq, Structural)]
pub enum BandedError {
    /// `init` was asked for zero channels.
    ChannelsZero,
    /// The buffer length is not `bands * frames_per_band`.
    ShapeMismatch,
}

impl BandedError {
    /// Human-readable text of the error.
    pub fn message(&self) -> (s: &'static str)
        ensures
            *self == BandedError::ChannelsZero ==> s@ == "channels must be >= 1"@,
            *self == BandedError::ShapeMismatch ==> s@ == "buffer/shape mismatch"@,
    {
        match self {
            BandedError::ChannelsZero => "channels must be >= 1",
            BandedError::ShapeMismatch => "buffer/shape mismatch",
        }
    }
}

/// What the processor does with one banded buffer.
#[derive(Clone, Copy, Debug, PartialEq, Eq, Structural)]
pub enum Route {
    /// Disabled: the buffer is left untouched.
    Bypass,
    /// 48 kHz, 3 x 160: merge the bands, run the full chain on the 480
    /// full-band samples, split them back into the buffer.
    MergeProcessSplit,
    /// 48 kHz, 1 x 480: run the full chain on the buffer directly.
    FullBand,
    /// Any other shape: run the clarity chain alone on the first `frames`
    /// samples (band 0), leave the upper bands untouched. When
    /// `build_chain` is set, the clarity chain at the current rate does not
    /// exist yet and is built before use.
    ClarityOnly { frames: usize, build_chain: bool },
}

/// Abstract state of the banded processor.
pub struct BandedView {
    /// Master enable.
    pub enabled: bool,
    /// Rate it was last bound to (0 before any `init`).
    pub sample_rate: u32,
    /// The full chain (denoiser + clarity) is present.
    pub full: bool,
    /// A stand-alone clarity chain is present.
    pub clarity_only: bool,
}

/// State after `init(sample_rate, channels)` and its result: zero channels
/// is refused and changes nothing; otherwise the full chain is bound at
/// 48 kHz and the clarity chain alone at any other rate.
pub open spec fn spec_init(v: BandedView, sample_rate: u32, channels: u32) -> (BandedView, Result<(), BandedError>) {
    if channels == 0 {
        (v, Err(BandedError::ChannelsZero))
    } else {
        (
            BandedView {
                enabled: v.enabled,
                sample_rate,
                full: sample_rate == FULL_CHAIN_RATE,
                clarity_only: sample_rate != FULL_CHAIN_RATE,
            },
            Ok(()),
        )
    }
}

/// State after offering one banded buffer of `bands` x `frames_per_band`
/// samples, `len` long, and the route taken.
pub open spec fn spec_route(v: BandedView, bands: nat, frames_per_band: nat, len: nat) -> (BandedView, Result<Route, BandedError>) {
    if !v.enabled {
        (v, Ok(Route::Bypass))
    } else if len != bands * frames_per_band {
        (v, Err(BandedError::ShapeMismatch))
    } else if bands == NUM_BANDS && v.full && frames_per_band == BAND_FRAME {
        (v, Ok(Route::MergeProcessSplit))
    } else if bands == 1 && v.full && frames_per_band == FULL_FRAME {
        (v, Ok(Route::FullBand))
    } else {
        (
            BandedView { clarity_only: true, ..v },
            Ok(Route::ClarityOnly { frames: frames_per_band as usize, build_chain: !v.clarity_only }),
        )
    }
}

/// Control state of the banded processor that sits behind the platform
/// capture hooks: it owns the rate policy (full chain at 48 kHz, clarity
/// alone at any other rate) and decides, for each banded buffer, which
/// processing path runs.
pub struct BandedState {
    enabled: bool,
    sample_rate: u32,
    full: bool,
    clarity_only: bool,
}

impl View for BandedState {
    type V = BandedView;

    closed spec fn view(&self) -> BandedView {
        BandedView {
            enabled: self.enabled,
            sample_rate: self.sample_rate,
            full: self.full,
            clarity_only: self.clarity_only,
        }
    }
}

impl BandedState {
    /// A processor not yet bound to a rate: no chain is present.
    pub fn new(enabled: bool) -> (s: Self)
        ensures
            s@ == (BandedView { enabled, sample_rate: 0, full: false, clarity_only: false }),
    {
        BandedState { enabled, sample_rate: 0, full: false, clarity_only: false }
    }

    /// Bind to a sample rate and channel count (see `spec_init`). On `Ok`
    /// the caller rebuilds the chains the new state names and zeroes both
    /// filterbanks.
    pub fn init(&mut self, sample_rate: u32, channels: u32) -> (r: Result<(), BandedError>)
        ensures
            (final(self)@, r) == spec_init(old(self)@, sample_rate, channels),
            final(self)@.enabled == old(self)@.enabled,
            channels == 0 ==> final(self)@ == old(self)@ && r == Err::<(), BandedError>(BandedError::ChannelsZero),
            channels > 0 ==> r is Ok && final(self)@.sample_rate == sample_rate
                && (final(self)@.full <==> sample_rate == FULL_CHAIN_RATE)
                && (final(self)@.clarity_only <==> sample_rate != FULL_CHAIN_RATE),
    {
        if channels == 0 {
            return Err(BandedError::ChannelsZero);
        }
        self.sample_rate = sample_rate;
        if sample_rate == FULL_CHAIN_RATE {
            self.full = true;
            self.clarity_only = false;
        } else {
            self.full = false;
            self.clarity_only = true;
        }
        Ok(())
    }

    /// Re-bind to a new rate, dropping all processing state: the same as
    /// `init(new_rate, 1)`.
    pub fn reset(&mut self, new_rate: u32) -> (r: Result<(), BandedError>)
        ensures
            (final(self)@, r) == spec_init(old(self)@, new_rate, 1),
            r is Ok,
            final(self)@.enabled == old(self)@.enabled,
            final(self)@.sample_rate == new_rate,
            final(self)@.full <==> new_rate == FULL_CHAIN_RATE,
            final(self)@.clarity_only <==> new_rate != FULL_CHAIN_RATE,
    {
        self.init(new_rate, 1)
    }

    /// The full chain (with the denoiser) is live: bound at 48 kHz.
    pub fn dfn_active(&self) -> (b: bool)
        ensures
            b == self@.full,
    {
        self.full
    }

    /// Master enable.
    pub fn is_enabled(&self) -> (b: bool)
        ensures
            b == self@.enabled,
    {
        self.enabled
    }

    /// The rate last bound (0 before any `init`).
    pub fn sample_rate(&self) -> (r: u32)
        ensures
            r == self@.sample_rate,
    {
        self.sample_rate
    }

    /// Turn processing on or off; the bound chains are kept.
    pub fn set_enabled(&mut self, on: bool)
        ensures
            final(self)@ == (BandedView { enabled: on, ..old(self)@ }),
    {
        self.enabled = on;
    }

    /// Decide the processing path for one band-major buffer of `bands` x
    /// `frames_per_band` samples that is `buf_len` long (see `spec_route`).
    /// A disabled processor leaves every buffer alone, whatever its shape;
    /// an enabled one refuses a buffer whose length is not the shape's.
    pub fn route(&mut self, bands: usize, frames_per_band: usize, buf_len: usize) -> (r: Result<Route, BandedError>)
        requires
            old(self)@.enabled && bands == 0 && buf_len == 0 ==> frames_per_band == 0,
        ensures
            (final(self)@, r) == spec_route(old(self)@, bands as nat, frames_per_band as nat, buf_len as nat),
            r matches Ok(Route::ClarityOnly { frames, .. }) ==> frames <= buf_len,
            final(self)@.enabled == old(self)@.enabled,
            final(self)@.sample_rate == old(self)@.sample_rate,
            final(self)@.full == old(self)@.full,
            (r == Ok::<Route, BandedError>(Route::Bypass)) <==> !old(self)@.enabled,
            r is Err <==> old(self)@.enabled && buf_len != bands * frames_per_band,
            r == Ok::<Route, BandedError>(Route::MergeProcessSplit) <==> old(self)@.enabled && old(self)@.full
                && bands == NUM_BANDS && frames_per_band == BAND_FRAME && buf_len == FULL_FRAME,
            r == Ok::<Route, BandedError>(Route::FullBand) <==> old(self)@.enabled && old(self)@.full
                && bands == 1 && frames_per_band == FULL_FRAME && buf_len == FULL_FRAME,
    {
        if !self.enabled {
            return Ok(Route::Bypass);
        }
        // A product that overflows cannot be the length of any buffer.
        let product = bands.checked_mul(frames_per_band);
        if product.is_none() || product.unwrap() != buf_len {
            return Err(BandedError::ShapeMismatch);
        }
        assert(buf_len == bands * frames_per_band);
        if bands == NUM_BANDS && self.full && frames_per_band == BAND_FRAME {
            Ok(Route::MergeProcessSplit)
        } else if bands == 1 && self.full && frames_per_band == FULL_FRAME {
            Ok(Route::FullBand)
        } else {
            let build_chain = !self.clarity_only;
            self.clarity_only = true;
            proof {
                if bands > 0 {
                    vstd::arithmetic::mul::lemma_mul_inequality(1, bands as int, frames_per_band as int);
                }
            }
            Ok(Route::ClarityOnly { frames: frames_per_band, build_chain })
        }
    }
}

/// Rate policy: once bound at 48 kHz, a 3 x 160 buffer runs merge, full
/// chain, split and a 1 x 480 buffer runs the full chain directly; once
/// bound at any other rate, the denoiser is off and every well-shaped
/// buffer runs the clarity chain alone on band 0, a chain that binding
/// already built.
pub proof fn lemma_rate_policy(v: BandedView, sample_rate: u32, channels: u32, bands: nat, frames_per_band: nat)
    requires
        channels > 0,
        v.enabled,
    ensures
        ({
            let (w, r) = spec_init(v, sample_rate, channels);
            &&& r is Ok
            &&& w.full <==> sample_rate == FULL_CHAIN_RATE
            &&& sample_rate == FULL_CHAIN_RATE ==> spec_route(w, 3, 160, 480).1 == Ok::<Route, BandedError>(Route::MergeProcessSplit)
            &&& sample_rate == FULL_CHAIN_RATE ==> spec_route(w, 1, 480, 480).1 == Ok::<Route, BandedError>(Route::FullBand)
            &&& sample_rate != FULL_CHAIN_RATE ==> spec_route(w, bands, frames_per_band, bands * frames_per_band).1
                == Ok::<Route, BandedError>(Route::ClarityOnly { frames: frames_per_band as usize, build_chain: false })
        }),
{
}

/// A disabled processor leaves every buffer alone and its state unchanged,
/// whatever the shape and length; enabling or disabling keeps the bound
/// chains; and routing never changes the enable flag, the bound rate or
/// the presence of the full chain.
pub proof fn lemma_enable_and_route_frame(v: BandedView, on: bool, bands: nat, frames_per_band: nat, len: nat)
    ensures
        !v.enabled ==> spec_route(v, bands, frames_per_band, len) == (v, Ok::<Route, BandedError>(Route::Bypass)),
        ({
            let w = spec_route(v, bands, frames_per_band, len).0;
            &&& w.enabled == v.enabled
            &&& w.sample_rate == v.sample_rate
            &&& w.full == v.full
            &&& v.clarity_only ==> w.clarity_only
        }),
        v.enabled && len != bands * frames_per_band ==> spec_route(v, bands, frames_per_band, len).1 == Err::<Route, BandedError>(BandedError::ShapeMismatch),
{
}

/// Binding with zero channels is refused and changes nothing; a reset is
/// binding with one channel, so it always succeeds.
pub proof fn lemma_init_refusal_and_reset(v: BandedView, sample_rate: u32)
    ensures
        spec_init(v, sample_rate, 0) == (v, Err::<(), BandedError>(BandedError::ChannelsZero)),
        spec_init(v, sample_rate, 1).1 is Ok,
{
}

/// What routing a buffer means, for every state and shape: a disabled
/// processor bypasses every buffer; an enabled one refuses exactly the
/// buffers whose length is not the shape's; with the full chain present a
/// 3 x 160 buffer always runs merge, full chain, split and a 1 x 480
/// buffer always runs the full chain, whether or not a clarity chain was
/// built earlier; those two routes are taken for no other shape; every
/// other well-shaped buffer runs the clarity chain on its first
/// `frames_per_band` samples, built only if not built before; and routing
/// never changes the enable flag, the bound rate or the full chain.
pub proof fn lemma_route_laws(v: BandedView, bands: nat, frames_per_band: nat, len: nat)
    ensures
        ({
            let (w, r) = spec_route(v, bands, frames_per_band, len);
            &&& w.enabled == v.enabled && w.sample_rate == v.sample_rate && w.full == v.full
            &&& (r == Ok::<Route, BandedError>(Route::Bypass)) <==> !v.enabled
            &&& !v.enabled ==> w == v
            &&& r is Err <==> (v.enabled && len != bands * frames_per_band)
            &&& r is Err ==> r == Err::<Route, BandedError>(BandedError::ShapeMismatch) && w == v
            &&& v.enabled && v.full && bands == 3 && frames_per_band == 160 && len == 480
                ==> r == Ok::<Route, BandedError>(Route::MergeProcessSplit)
            &&& v.enabled && v.full && bands == 1 && frames_per_band == 480 && len == 480
                ==> r == Ok::<Route, BandedError>(Route::FullBand)
            &&& r == Ok::<Route, BandedError>(Route::MergeProcessSplit) ==> v.full && bands == 3 && frames_per_band == 160
            &&& r == Ok::<Route, BandedError>(Route::FullBand) ==> v.full && bands == 1 && frames_per_band == 480
            &&& (v.enabled && len == bands * frames_per_band
                && !(v.full && bands == 3 && frames_per_band == 160)
                && !(v.full && bands == 1 && frames_per_band == 480))
                ==> r == Ok::<Route, BandedError>(Route::ClarityOnly {
                        frames: frames_per_band as usize,
                        build_chain: !v.clarity_only,
                    }) && w.clarity_only
        }),
{
}

/// What binding means, for every prior state: it never touches the master
/// enable; zero channels is refused and changes nothing; otherwise the rate
/// asked is recorded, the full chain is present exactly at 48 kHz and the
/// stand-alone clarity chain exactly at any other rate. Hence a disabled
/// processor bypasses every buffer after any binding, and an enabled one
/// bound at another rate never runs the denoiser.
pub proof fn lemma_init_laws(v: BandedView, sample_rate: u32, channels: u32, bands: nat, frames_per_band: nat, len: nat)
    ensures
        ({
            let (w, r) = spec_init(v, sample_rate, channels);
            &&& w.enabled == v.enabled
            &&& channels == 0 ==> w == v && r == Err::<(), BandedError>(BandedError::ChannelsZero)
            &&& channels > 0 ==> r is Ok && w.sample_rate == sample_rate
                && (w.full <==> sample_rate == FULL_CHAIN_RATE)
                && (w.clarity_only <==> sample_rate != FULL_CHAIN_RATE)
            &&& !v.enabled ==> spec_route(w, bands, frames_per_band, len).1 == Ok::<Route, BandedError>(Route::Bypass)
            &&& channels > 0 && sample_rate != FULL_CHAIN_RATE ==> {
                let r2 = spec_route(w, bands, frames_per_band, len).1;
                r2 != Ok::<Route, BandedError>(Route::MergeProcessSplit) && r2 != Ok::<Route, BandedError>(Route::FullBand)
            }
        }),
{
}

/// Rebinding follows the last rate asked: after binding at one rate and
/// resetting to another, the processor is bound at the second rate, with
/// the chains that rate calls for, and its enable flag as before.
pub proof fn lemma_rebind_follows_last_rate(v: BandedView, first: u32, channels: u32, second: u32)
    requires
        channels > 0,
    ensures
        ({
            let w = spec_init(spec_init(v, first, channels).0, second, 1).0;
            &&& w.sample_rate == second
            &&& w.enabled == v.enabled
            &&& (w.full <==> second == FULL_CHAIN_RATE)
        }),
{
}

/// The tap positions form a sparse sliding FIR: the taps of one output are
/// `STRIDE` apart, the next output reads one sample later, a larger input
/// shift reads one sample earlier, and tap 0 of output 0 at shift 0 reads
/// the first current input sample (the one right after the memory).
pub proof fn lemma_tap_positions_slide(in_shift: int, k: int, i: int)
    ensures
        history_position(in_shift, k, i + 1) == history_position(in_shift, k, i) - STRIDE,
        history_position(in_shift, k + 1, i) == history_position(in_shift, k, i) + 1,
        history_position(in_shift + 1, k, i) == history_position(in_shift, k, i) - 1,
        history_position(0, 0, 0) == MEMORY_SIZE,
        tap_position(Tap::Input(0)) == MEMORY_SIZE,
        tap_position(Tap::State(0)) == 0,
{
}

} // verus!
