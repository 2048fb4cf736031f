use denoise_voice_core::bands::{BandedError, BandedState};
use denoise_voice_core::ffi::{
    init_args, process_args, reset_args, status_code, DvcHandle, DVC_CORE_ERROR, DVC_INVALID_ARGS,
    DVC_OK,
};
use denoise_voice_core::jni::{
    check_buffer_address, check_buffer_capacity, check_direct_buffer, JNI_BAD_BUFFER, JNI_BUFFER_TOO_SMALL,
};
use denoise_voice_core::engine::PassthroughDenoiser;
use denoise_voice_core::{processes_frame, FRAME_SIZE, SAMPLE_RATE};

#[test]
fn c_entry_lifecycle_codes() {
    let mut h = DvcHandle(BandedState::new(true));
    let (rate, ch) = init_args(48_000, 1).expect("valid init arguments");
    assert_eq!(status_code(h.0.init(rate, ch)), DVC_OK);
    let (b, f, n) = process_args(false, 3, 160).expect("valid shape");
    assert_eq!((b, f, n), (3, 160, 480));
    assert_eq!(status_code(h.0.route(b, f, n).map(|_| ())), DVC_OK);
    // frames_per_band == 0 violates the transport contract -> -1.
    assert_eq!(process_args(false, 3, 0), None);
    h.0.set_enabled(false);
    let rate = reset_args(16_000).expect("valid rate");
    assert_eq!(status_code(h.0.reset(rate)), DVC_OK);
}

#[test]
fn c_entry_invalid_arguments() {
    assert_eq!(init_args(0, 1), None);
    assert_eq!(init_args(48_000, 0), None);
    assert_eq!(init_args(-48_000, 2), None);
    assert_eq!(init_args(44_100, 2), Some((44_100, 2)));
    assert_eq!(reset_args(-1), None);
    assert_eq!(process_args(true, 3, 160), None);
    assert_eq!(process_args(false, -3, 160), None);
    assert_eq!(DVC_INVALID_ARGS, -1);
}

#[test]
fn core_error_maps_to_minus_two() {
    assert_eq!(status_code(Err(BandedError::ShapeMismatch)), DVC_CORE_ERROR);
    assert_eq!(status_code(Err(BandedError::ChannelsZero)), -2);
    assert_eq!(status_code(Ok(())), 0);
}

#[test]
fn jni_buffer_checks() {
    assert_eq!(check_buffer_address(None), Err(JNI_BAD_BUFFER));
    assert_eq!(check_buffer_address(Some(4098)), Err(-4));
    assert_eq!(check_buffer_address(Some(4096)), Ok(4096));
    assert_eq!(check_buffer_capacity(3, 160, None), Err(JNI_BAD_BUFFER));
    assert_eq!(check_buffer_capacity(3, 160, Some(1919)), Err(JNI_BUFFER_TOO_SMALL));
    assert_eq!(check_buffer_capacity(3, 160, Some(1920)), Ok(()));
    assert_eq!(check_buffer_capacity(1, 480, Some(4096)), Ok(()));
    assert_eq!(JNI_BUFFER_TOO_SMALL, -5);
}

#[test]
fn frame_gate() {
    assert!(processes_frame(true, FRAME_SIZE));
    assert!(!processes_frame(false, FRAME_SIZE), "disabled chain must not alter samples");
    assert!(!processes_frame(true, FRAME_SIZE + 1), "non-FRAME_SIZE frames are left untouched");
    assert!(!processes_frame(true, 0));
    assert_eq!(SAMPLE_RATE, 48_000);
    let _engine = PassthroughDenoiser;
}

#[test]
fn jni_check_order_and_codes() {
    assert_eq!(check_direct_buffer(0, 160, None, None), Err(-1), "shape checked first");
    assert_eq!(check_direct_buffer(3, -1, Some(4096), Some(1920)), Err(-1));
    assert_eq!(check_direct_buffer(3, 160, None, Some(1920)), Err(-4));
    assert_eq!(check_direct_buffer(3, 160, Some(4097), None), Err(-4), "alignment before capacity");
    assert_eq!(check_direct_buffer(3, 160, Some(4096), None), Err(-4));
    assert_eq!(check_direct_buffer(3, 160, Some(4096), Some(1916)), Err(-5));
    assert_eq!(check_direct_buffer(3, 160, Some(4096), Some(1920)), Ok(4096));
}

#[test]
fn jni_capacity_overflowing_shape_is_too_small() {
    assert_eq!(check_buffer_capacity(1, usize::MAX / 2, Some(8)), Err(JNI_BUFFER_TOO_SMALL));
    assert_eq!(check_buffer_capacity(usize::MAX, usize::MAX, Some(usize::MAX)), Err(-5));
    assert_eq!(check_buffer_capacity(0, usize::MAX, Some(0)), Ok(()));
}

#[test]
fn null_buffer_is_invalid_whatever_shape() {
    assert_eq!(process_args(true, i32::MAX, i32::MAX), None);
    assert_eq!(process_args(true, 65_536, 65_536), None);
}
