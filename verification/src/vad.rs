//! The hangover of the energy-based voice-activity detector: once a frame
//! is loud, speech is held for `hangover` further frames so word tails are
//! not chopped.

use vstd::prelude::*;

verus! {

/// Frames speech is held after the level drops (about 200 ms at 10 ms frames).
pub const DEFAULT_HANGOVER: u32 = 20;

/// Abstract state of the hangover counter.
pub struct HangoverView {
    /// Frames to keep "speech" after a loud frame.
    pub hangover: u32,
    /// Frames of hold still left.
    pub hang_count: u32,
}

/// One frame: a loud frame is speech and rearms the hold; a quiet frame is
/// speech while hold is left, and uses one frame of it.
pub open spec fn spec_step(v: HangoverView, is_loud: bool) -> (HangoverView, bool) {
    if is_loud {
        (HangoverView { hang_count: v.hangover, ..v }, true)
    } else if v.hang_count > 0 {
        (HangoverView { hang_count: (v.hang_count - 1) as u32, ..v }, true)
    } else {
        (v, false)
    }
}

/// State and per-frame verdicts after a run of frames, given by loudness.
pub open spec fn spec_run(v: HangoverView, frames: Seq<bool>) -> (HangoverView, Seq<bool>)
    decreases frames.len(),
{
    if frames.len() == 0 {
        (v, Seq::empty())
    } else {
        let (w, b) = spec_step(v, frames[0]);
        let (u, rest) = spec_run(w, frames.drop_first());
        (u, seq![b] + rest)
    }
}

/// Speech hold of the voice-activity detector.
pub struct Hangover {
    hangover: u32,
    hang_count: u32,
}

impl View for Hangover {
    type V = HangoverView;

    closed spec fn view(&self) -> HangoverView {
        HangoverView { hangover: self.hangover, hang_count: self.hang_count }
    }
}

impl Hangover {
    /// The detector's hold: `DEFAULT_HANGOVER` frames, none pending.
    pub fn new() -> (h: Self)
        ensures
            h@ == (HangoverView { hangover: DEFAULT_HANGOVER, hang_count: 0 }),
    {
        Hangover { hangover: DEFAULT_HANGOVER, hang_count: 0 }
    }

    /// Feed whether this frame's level is loud (above floor + margin); get
    /// back whether speech is present (see `spec_step`).
    pub fn update(&mut self, is_loud: bool) -> (speech: bool)
        ensures
            (final(self)@, speech) == spec_step(old(self)@, is_loud),
            final(self)@.hangover == old(self)@.hangover,
            is_loud ==> speech && final(self)@.hang_count == old(self)@.hangover,
            !is_loud ==> speech == (old(self)@.hang_count > 0),
            !is_loud && old(self)@.hang_count > 0 ==> final(self)@.hang_count == old(self)@.hang_count - 1,
    {
        if is_loud {
            self.hang_count = self.hangover;
            true
        } else if self.hang_count > 0 {
            self.hang_count = self.hang_count - 1;
            true
        } else {
            false
        }
    }

    /// Drop any pending hold.
    pub fn reset(&mut self)
        ensures
            final(self)@ == (HangoverView { hang_count: 0, ..old(self)@ }),
    {
        self.hang_count = 0;
    }
}

/// A run of `n` quiet frames.
pub open spec fn quiet(n: nat) -> Seq<bool> {
    Seq::new(n, |i: int| false)
}

/// From `c` frames of hold, the first `c` quiet frames read speech, any
/// later ones do not, and the hold left is `c - n` (or none).
pub proof fn lemma_quiet_run(v: HangoverView, n: nat)
    ensures
        spec_run(v, quiet(n)).1.len() == n,
        forall|j: int| 0 <= j < n ==> #[trigger] spec_run(v, quiet(n)).1[j] == (j < v.hang_count),
        spec_run(v, quiet(n)).0 == (HangoverView {
            hang_count: if n <= v.hang_count { (v.hang_count - n) as u32 } else { 0 },
            ..v
        }),
    decreases n,
{
    if n > 0 {
        let w = spec_step(v, false).0;
        assert(quiet(n).drop_first() =~= quiet((n - 1) as nat));
        lemma_quiet_run(w, (n - 1) as nat);
        let rest = spec_run(w, quiet((n - 1) as nat)).1;
        assert forall|j: int| 0 <= j < n implies #[trigger] spec_run(v, quiet(n)).1[j] == (j < v.hang_count) by {
            if j > 0 {
                assert(spec_run(v, quiet(n)).1[j] == rest[j - 1]);
            }
        }
    }
}

/// After a loud frame, speech is held for exactly `hangover` quiet frames:
/// the loud frame and the next `hangover` quiet frames read speech, every
/// quiet frame after them reads silence, and sustained silence always ends
/// up non-speech.
pub proof fn lemma_hangover_after_loud(v: HangoverView, n: nat)
    ensures
        ({
            let out = spec_run(v, seq![true] + quiet(n)).1;
            &&& out.len() == n + 1
            &&& out[0]
            &&& forall|j: int| 1 <= j <= n ==> #[trigger] out[j] == (j <= v.hangover)
        }),
        n > v.hang_count ==> !spec_run(v, quiet(n)).1[n - 1],
{
    let frames = seq![true] + quiet(n);
    assert(frames.drop_first() =~= quiet(n));
    let w = spec_step(v, true).0;
    lemma_quiet_run(w, n);
    lemma_quiet_run(v, n);
    let out = spec_run(v, frames).1;
    assert forall|j: int| 1 <= j <= n implies #[trigger] out[j] == (j <= v.hangover) by {
        assert(out[j] == spec_run(w, quiet(n)).1[j - 1]);
    }
}

/// One frame never changes the hold length; a loud frame is speech and
/// rearms the full hold, whatever hold was pending; a quiet frame is speech
/// exactly while hold is pending and uses up one frame of it.
pub proof fn lemma_step_laws(v: HangoverView, is_loud: bool)
    ensures
        spec_step(v, is_loud).0.hangover == v.hangover,
        spec_step(v, true) == (HangoverView { hangover: v.hangover, hang_count: v.hangover }, true),
        spec_step(v, false).1 == (v.hang_count > 0),
        spec_step(v, false).0.hang_count == if v.hang_count > 0 { v.hang_count - 1 } else { 0 },
{
}

/// Running two stretches of frames one after the other is running their
/// concatenation.
pub proof fn lemma_run_concat(v: HangoverView, a: Seq<bool>, b: Seq<bool>)
    ensures
        spec_run(v, a + b) == (
            spec_run(spec_run(v, a).0, b).0,
            spec_run(v, a).1 + spec_run(spec_run(v, a).0, b).1,
        ),
    decreases a.len(),
{
    if a.len() == 0 {
        assert(a + b =~= b);
        assert(spec_run(v, a).1 + spec_run(v, b).1 =~= spec_run(v, b).1);
    } else {
        let w = spec_step(v, a[0]).0;
        assert((a + b).drop_first() =~= a.drop_first() + b);
        lemma_run_concat(w, a.drop_first(), b);
        let o1 = spec_run(w, a.drop_first()).1;
        let o2 = spec_run(spec_run(w, a.drop_first()).0, b).1;
        assert(seq![spec_step(v, a[0]).1] + (o1 + o2) =~= (seq![spec_step(v, a[0]).1] + o1) + o2);
    }
}

/// A run keeps the hold length, gives one verdict per frame, and every
/// loud frame in it reads speech.
pub proof fn lemma_run_basics(v: HangoverView, a: Seq<bool>)
    ensures
        spec_run(v, a).0.hangover == v.hangover,
        spec_run(v, a).1.len() == a.len(),
        forall|i: int| 0 <= i < a.len() && a[i] ==> #[trigger] spec_run(v, a).1[i],
    decreases a.len(),
{
    if a.len() > 0 {
        let w = spec_step(v, a[0]).0;
        lemma_run_basics(w, a.drop_first());
        assert forall|i: int| 0 <= i < a.len() && a[i] implies #[trigger] spec_run(v, a).1[i] by {
            if i > 0 {
                assert(a.drop_first()[i - 1] == a[i]);
                assert(spec_run(v, a).1[i] == spec_run(w, a.drop_first()).1[i - 1]);
            }
        }
    }
}

/// Whatever came before, a run of frames that ends loud leaves the full
/// hold pending: the next `hangover` quiet frames read speech and every
/// later quiet frame reads silence. A long stretch of speech does not
/// shorten the hold after it.
pub proof fn lemma_hold_after_speech(v: HangoverView, a: Seq<bool>, n: nat)
    requires
        a.len() > 0,
        a.last(),
    ensures
        spec_run(v, a).0.hang_count == v.hangover,
        ({
            let out = spec_run(v, a + quiet(n)).1;
            &&& out.len() == a.len() + n
            &&& forall|j: int| 0 <= j < n ==> #[trigger] out[a.len() + j] == (j < v.hangover)
        }),
    decreases a.len(),
{
    let front = a.drop_last();
    assert(front + seq![true] =~= a);
    lemma_run_concat(v, front, seq![true]);
    let w = spec_run(v, front).0;
    lemma_run_basics(v, front);
    let one = seq![true];
    assert(one.drop_first() =~= Seq::<bool>::empty());
    assert(one[0]);
    assert(spec_run(spec_step(w, true).0, Seq::<bool>::empty()).0 == spec_step(w, true).0);
    assert(spec_run(w, one).0 == spec_step(w, true).0);
    let u = spec_run(v, a).0;
    lemma_run_basics(v, a);
    lemma_run_concat(v, a, quiet(n));
    lemma_quiet_run(u, n);
    let out = spec_run(v, a + quiet(n)).1;
    assert forall|j: int| 0 <= j < n implies #[trigger] out[a.len() + j] == (j < v.hangover) by {
        assert(out[a.len() + j] == spec_run(u, quiet(n)).1[j]);
    }
}

} // verus!
