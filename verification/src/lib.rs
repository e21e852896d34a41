//! Verified core of an SDR receiver front end: device settings, radio
//! modes, VFO tuning, dB-range stepping, popup navigation, command
//! generation for the DSP side, persisted-settings validation and a few
//! display computations.

use vstd::prelude::*;

pub mod app;
pub mod command;
pub mod device_kind;
pub mod display;
pub mod dsp_plan;
pub mod frames;
pub mod history;
pub mod key;
pub mod layout;
pub mod radio;
pub mod source;
pub mod text;

verus! {

/// Number of bins in one spectrum frame.
pub const FFT_SIZE: usize = 1024;

/// Number of spectrum frames kept for the waterfall.
pub const WATERFALL_MAX_ROWS: usize = 100;

/// Total number of digits displayed in the VFO (up to 9,999,999,999 Hz).
pub const VFO_DIGITS: usize = 10;

} // verus!
