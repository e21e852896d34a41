//! Commands that the user interface hands to the DSP side.

use vstd::prelude::*;

verus! {

/// Radio mode codes shared between the user interface and the DSP side.
pub const MODE_OFF: u8 = 0;

pub const MODE_WBFM: u8 = 1;

pub const MODE_NBFM: u8 = 2;

pub const MODE_AM: u8 = 3;

/// Commands sent from the user interface to the DSP thread.
#[derive(Debug, Clone, Copy, PartialEq, Eq, Structural)]
pub enum DspCommand {
    /// Centre frequency in Hz.
    TuneFrequency(u64),
    SetSampleRate(u32),
    SetAgcMode(bool),
    /// Manual gain in tenths of a dB.
    SetManualGain(i32),
    /// One of the `MODE_*` codes.
    SetRadioMode(u8),
    /// Squelch threshold in tenths of a dB.
    SetSquelchDb(i32),
}

} // verus!
