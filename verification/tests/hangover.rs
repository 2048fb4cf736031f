use denoise_voice_core::vad::{Hangover, DEFAULT_HANGOVER};

#[test]
fn quiet_frames_without_loud_are_not_speech() {
    let mut h = Hangover::new();
    let mut last = true;
    for _ in 0..200 {
        last = h.update(false);
    }
    assert!(!last);
}

#[test]
fn loud_frame_holds_speech_for_hangover() {
    let mut h = Hangover::new();
    assert!(h.update(true), "loud frame is speech");
    for n in 1..=DEFAULT_HANGOVER {
        assert!(h.update(false), "quiet frame {n} within hangover is speech");
    }
    assert!(!h.update(false), "frame after the hangover is silence");
}

#[test]
fn loud_frame_rearms_hold() {
    let mut h = Hangover::new();
    h.update(true);
    for _ in 0..10 {
        h.update(false);
    }
    assert!(h.update(true));
    for _ in 0..DEFAULT_HANGOVER {
        assert!(h.update(false));
    }
    assert!(!h.update(false));
}

#[test]
fn reset_drops_pending_hold() {
    let mut h = Hangover::new();
    h.update(true);
    h.reset();
    assert!(!h.update(false));
}
