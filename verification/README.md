# denoise_voice_core

Client-side voice-clarity chain (48 kHz mono, 10 ms frames) for LiveKit
calls, with its control core verified in Verus. The denoiser stage sits
behind the `Denoiser` trait; this build carries the passthrough reference
engine only, since the DeepFilterNet 3 binding needs the `df::tract`
runtime, which the published `deep_filter` releases do not offer.

- `src/` — the verified library: everything the engine decides on integers
  and booleans.
  - `bands.rs`: the three-band filterbank's polyphase branch plan
    (`non_zero_filter_index`, `branch_index`), its sample-index arithmetic
    (analysis/synthesis resampling, band-major layout, the sparse FIR tap
    plan and memory update), and `BandedState`, the rate policy and path
    choice of the banded processor behind the mobile capture hooks.
  - `vad.rs`: the speech hangover of the voice-activity detector.
  - `ffi.rs`, `jni.rs`: argument checks and return codes of the C and JNI
    entry points.
  - `lib.rs`: the frame gate of the full chain.
- `app/` — ordinary Rust around it: the floating-point DSP (biquads, AGC,
  compressor, limiter, filterbank multiply-accumulate, noise-floor
  tracking), the `unsafe` C ABI, the JNI exports and the wasm-bindgen
  surface, all driven by the library's decisions.
- `tests/` — tests of the library on concrete values.
