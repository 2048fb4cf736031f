use denoise_voice_core::bands::{
    analysis_input_index, band_start, branch_index, filter_core_tap, next_state_source,
    non_zero_filter_index, synthesis_output_index, Tap, BAND_FRAME, FILTER_SIZE, FULL_FRAME,
    MEMORY_SIZE, NUM_BANDS, NUM_NON_ZERO_FILTERS, STRIDE,
};

#[test]
fn non_zero_filter_index_skips_zero_branches() {
    let expected = [
        Some(0), Some(1), Some(2), None, Some(3), Some(4), Some(5), Some(6), Some(7), None,
        Some(8), Some(9), Some(10), Some(11),
    ];
    for (i, e) in expected.iter().enumerate() {
        assert_eq!(non_zero_filter_index(i), *e, "branch {i}");
    }
}

#[test]
fn each_filter_applied_once_per_frame() {
    let mut seen = [0u32; NUM_NON_ZERO_FILTERS];
    let mut skipped = 0;
    for phase in 0..NUM_BANDS {
        for in_shift in 0..STRIDE {
            let b = branch_index(phase, in_shift);
            assert_eq!(b, phase + 3 * in_shift);
            match non_zero_filter_index(b) {
                Some(f) => seen[f] += 1,
                None => skipped += 1,
            }
        }
    }
    assert_eq!(seen, [1; NUM_NON_ZERO_FILTERS]);
    assert_eq!(skipped, 2);
}

#[test]
fn resampling_indices_partition_frame() {
    let mut read = [0u32; FULL_FRAME];
    let mut written = [0u32; FULL_FRAME];
    for phase in 0..NUM_BANDS {
        for k in 0..BAND_FRAME {
            read[analysis_input_index(phase, k)] += 1;
            written[synthesis_output_index(phase, k)] += 1;
        }
    }
    assert!(read.iter().all(|&c| c == 1));
    assert!(written.iter().all(|&c| c == 1));
    assert_eq!(analysis_input_index(0, 0), 2);
    assert_eq!(analysis_input_index(2, 0), 0);
    assert_eq!(analysis_input_index(1, 159), 478);
    assert_eq!(synthesis_output_index(2, 159), 479);
}

#[test]
fn band_major_layout() {
    assert_eq!(band_start(0), 0);
    assert_eq!(band_start(1), 160);
    assert_eq!(band_start(2), 320);
}

#[test]
fn filter_core_taps_are_sparse_convolution_over_history() {
    // Integer samples keep the check exact: history = memory ++ input.
    let state: Vec<i64> = (0..MEMORY_SIZE as i64).map(|x| 1000 + x).collect();
    let input: Vec<i64> = (0..BAND_FRAME as i64).map(|x| 7 * x - 300).collect();
    let history: Vec<i64> = state.iter().chain(input.iter()).copied().collect();
    let filter = [3i64, -5, 11, 2];
    for in_shift in 0..STRIDE {
        for k in 0..BAND_FRAME {
            let mut via_taps = 0i64;
            let mut direct = 0i64;
            for i in 0..FILTER_SIZE {
                let sample = match filter_core_tap(in_shift, k, i) {
                    Tap::State(j) => state[j],
                    Tap::Input(j) => input[j],
                };
                via_taps += filter[i] * sample;
                direct += filter[i] * history[MEMORY_SIZE + k - in_shift - STRIDE * i];
            }
            assert_eq!(via_taps, direct, "in_shift {in_shift}, k {k}");
        }
    }
    // Outputs before the shift read the memory only; late outputs the input only.
    assert_eq!(filter_core_tap(3, 0, 0), Tap::State(12));
    assert_eq!(filter_core_tap(3, 0, 3), Tap::State(0));
    assert_eq!(filter_core_tap(0, 5, 1), Tap::Input(1));
    assert_eq!(filter_core_tap(0, 5, 2), Tap::State(12));
    assert_eq!(filter_core_tap(1, 100, 3), Tap::Input(87));
}

#[test]
fn memory_keeps_last_inputs() {
    assert_eq!(next_state_source(0), 145);
    assert_eq!(next_state_source(MEMORY_SIZE - 1), BAND_FRAME - 1);
}
