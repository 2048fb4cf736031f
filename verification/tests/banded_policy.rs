use denoise_voice_core::bands::{BandedError, BandedState, Route, BAND_FRAME, FULL_FRAME};

#[test]
fn banded_48k_3band_takes_full_chain() {
    let mut p = BandedState::new(true);
    assert!(p.init(48_000, 1).is_ok());
    assert!(p.dfn_active());
    assert_eq!(p.route(3, BAND_FRAME, FULL_FRAME), Ok(Route::MergeProcessSplit));
    assert_eq!(p.route(1, FULL_FRAME, FULL_FRAME), Ok(Route::FullBand));
}

#[test]
fn banded_16k_single_band_is_clarity_only() {
    let mut p = BandedState::new(true);
    assert!(p.init(16_000, 1).is_ok());
    assert_eq!(p.route(1, 160, 160), Ok(Route::ClarityOnly { frames: 160, build_chain: false }));
    assert!(!p.dfn_active(), "DFN must be bypassed off 48k");
    assert_eq!(p.sample_rate(), 16_000);
}

#[test]
fn banded_rejects_shape_mismatch() {
    let mut p = BandedState::new(true);
    assert!(p.init(48_000, 1).is_ok());
    assert_eq!(p.route(3, 100, 100), Err(BandedError::ShapeMismatch));
    assert_eq!(BandedError::ShapeMismatch.message(), "buffer/shape mismatch");
}

#[test]
fn banded_disabled_bypasses_any_shape() {
    let mut p = BandedState::new(false);
    assert!(p.init(48_000, 1).is_ok());
    assert_eq!(p.route(3, 100, 7), Ok(Route::Bypass));
    p.set_enabled(true);
    assert!(p.is_enabled());
    assert_eq!(p.route(3, 160, 480), Ok(Route::MergeProcessSplit));
    p.set_enabled(false);
    assert!(p.dfn_active(), "toggling keeps the bound chain");
    assert_eq!(p.route(3, 160, 480), Ok(Route::Bypass));
}

#[test]
fn banded_unexpected_shape_at_48k_builds_clarity_chain_once() {
    let mut p = BandedState::new(true);
    assert!(p.init(48_000, 2).is_ok());
    assert_eq!(p.route(2, 160, 320), Ok(Route::ClarityOnly { frames: 160, build_chain: true }));
    assert_eq!(p.route(2, 160, 320), Ok(Route::ClarityOnly { frames: 160, build_chain: false }));
    assert!(p.dfn_active());
}

#[test]
fn banded_init_zero_channels_is_refused() {
    let mut p = BandedState::new(true);
    assert!(p.init(16_000, 1).is_ok());
    assert_eq!(p.init(48_000, 0), Err(BandedError::ChannelsZero));
    assert_eq!(BandedError::ChannelsZero.message(), "channels must be >= 1");
    assert_eq!(p.sample_rate(), 16_000, "a refused init changes nothing");
    assert!(!p.dfn_active());
}

#[test]
fn banded_reset_rebinds_rate() {
    let mut p = BandedState::new(true);
    assert!(p.init(48_000, 1).is_ok());
    assert!(p.reset(16_000).is_ok());
    assert!(!p.dfn_active());
    assert!(p.reset(48_000).is_ok());
    assert!(p.dfn_active());
}

#[test]
fn banded_before_init_builds_clarity_lazily() {
    let mut p = BandedState::new(true);
    assert!(!p.dfn_active());
    assert_eq!(p.sample_rate(), 0);
    assert_eq!(p.route(3, 160, 480), Ok(Route::ClarityOnly { frames: 160, build_chain: true }));
}

#[test]
fn banded_overflowing_shape_is_mismatch() {
    let mut p = BandedState::new(true);
    assert!(p.init(48_000, 1).is_ok());
    assert_eq!(p.route(usize::MAX, 2, 480), Err(BandedError::ShapeMismatch));
    assert_eq!(p.route(usize::MAX, 1, usize::MAX), Ok(Route::ClarityOnly { frames: 1, build_chain: true }));
}
