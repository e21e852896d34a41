# sdrrat

A terminal receiver for software-defined radios (RTL-SDR and HackRF):
live spectrum and waterfall, WBFM / NBFM / AM demodulation with squelch,
and keyboard-driven tuning.

The crate is split in two:

- `src/` is the library, written in Verus and verified. It holds the
  application state machine (`app`): every key press is a transition
  specified as a spec function on `AppState`, together with the invariant
  every transition keeps and the properties that span several operations
  (`app::laws`). It also holds the device and mode tables, the validation of
  persisted settings, the sample-rate label and VFO digits, the column plan
  of spectrum down-sampling, the batching of samples into frames, the
  waterfall history and the decimation plan of the demodulation chains.
- `app/` is the program around it: the terminal loop, drawing, the DSP
  flowgraph and its thread, the config file, and everything that computes
  on floating-point samples.

Tests of the library are in `tests/`.
