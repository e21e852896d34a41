//! Source popup: device, sample rate and gain selection.

use vstd::prelude::*;

use super::{App, AppMode, AppState};
use crate::command::DspCommand;
use crate::device_kind::{DeviceKind, DEVICE_KIND_COUNT};
use crate::key::Key;
use crate::source::SourceField;

verus! {

/// `idx` if it indexes a table of `len` entries, else the last index.
pub open spec fn capped_index(idx: usize, len: nat) -> int {
    if idx < len {
        idx as int
    } else {
        len - 1
    }
}

/// `(idx + delta)` wrapped into `0..len`, as the index arithmetic computes
/// it.
fn wrap_index(idx: usize, delta: i32, len: usize) -> (r: usize)
    requires
        0 < len <= i32::MAX,
        idx < len,
        idx + delta <= i32::MAX,
    ensures
        r == AppState::wrap_index(idx, delta, len as nat),
        r < len,
{
    let sum = idx as i32 + delta;
    let wrapped = sum.checked_rem_euclid(len as i32).unwrap();
    wrapped as usize
}

/// The next supported device in the direction of `delta`, skipping
/// unsupported kinds (at most once round the list).
fn next_supported_device(start: DeviceKind, delta: i32) -> (r: DeviceKind)
    ensures
        r == (if delta >= 0 {
            start.spec_next()
        } else {
            start.spec_prev()
        }),
{
    let mut next = start;
    let mut tries: usize = 0;
    while tries < DEVICE_KIND_COUNT
        invariant_except_break
            tries == 0,
            next == start,
        ensures
            next == (if delta >= 0 {
                start.spec_next()
            } else {
                start.spec_prev()
            }),
        decreases DEVICE_KIND_COUNT - tries,
    {
        next = if delta >= 0 {
            next.next()
        } else {
            next.prev()
        };
        if next.is_supported() {
            break ;
        }
        tries += 1;
    }
    next
}

impl App {
    /// The selected sample rate in Hz.
    pub fn current_sample_rate(&self) -> (r: u32)
        ensures
            r == self.device_kind.sample_rates()[capped_index(
                self.sample_rate_idx,
                self.device_kind.sample_rate_count(),
            )],
    {
        let opts = self.device_kind.sample_rate_options();
        let i = if self.sample_rate_idx < opts.len() - 1 {
            self.sample_rate_idx
        } else {
            opts.len() - 1
        };
        opts[i]
    }

    /// The selected manual gain, in tenths of a dB.
    pub fn current_gain_tenths(&self) -> (r: i32)
        ensures
            r == self.device_kind.gains_tenths()[capped_index(
                self.gain_idx,
                self.device_kind.gain_count(),
            )],
    {
        let opts = self.device_kind.gain_options_tenths();
        let i = if self.gain_idx < opts.len() - 1 {
            self.gain_idx
        } else {
            opts.len() - 1
        };
        opts[i]
    }

    /// Snap the sample-rate and gain indices into the current device's
    /// tables (to the device defaults when out of range).
    fn clamp_indices_to_device(&mut self)
        ensures
            final(self)@ == old(self)@.clamp_indices_to_device(),
    {
        let sr_len = self.device_kind.sample_rate_options().len();
        if self.sample_rate_idx >= sr_len {
            self.sample_rate_idx = self.device_kind.default_sample_rate_idx();
        }
        let g_len = self.device_kind.gain_options_tenths().len();
        if self.gain_idx >= g_len {
            self.gain_idx = self.device_kind.default_gain_idx();
        }
    }

    /// Cycle the focused Source field's value left (`delta < 0`) or right.
    /// Returns the command to send to the DSP thread, if any. Changing the
    /// device resets the rates and gains to its defaults, clamps the
    /// frequency into its range, moves the focus to Connect and, while
    /// connected, asks for a disconnect.
    #[verifier::spinoff_prover]
    pub fn source_cycle(&mut self, delta: i32) -> (r: Option<DspCommand>)
        requires
            old(self)@.wf(),
            old(self)@.cycle_fits(delta),
        ensures
            (final(self)@, r) == old(self)@.source_cycle(delta),
            old(self).mode != AppMode::EditingFrequency ==> final(self)@.wf(),
    {
        match self.source_focus {
            SourceField::Device => self.cycle_device(delta),
            SourceField::Connect => None,
            SourceField::SampleRate => self.cycle_sample_rate(delta),
            SourceField::GainMode => self.toggle_gain_mode(),
            SourceField::ManualGain => self.cycle_manual_gain(delta),
        }
    }

    fn cycle_device(&mut self, delta: i32) -> (r: Option<DspCommand>)
        ensures
            (final(self)@, r) == old(self)@.cycle_device(delta),
    {
        let next = next_supported_device(self.device_kind, delta);
        if next == self.device_kind {
            return None;
        }
        self.switch_device(next);
        // The running flowgraph is now stale: the user must connect again.
        if self.is_connected() {
            self.request_disconnect();
        }
        self.source_focus = SourceField::Connect;
        None
    }

    /// Select `next`, reset the rate and gain to its defaults and clamp the
    /// current frequency into its range.
    fn switch_device(&mut self, next: DeviceKind)
        ensures
            final(self)@ == old(self)@.switch_device(next),
    {
        let sample_rate_idx = next.default_sample_rate_idx();
        let gain_idx = next.default_gain_idx();
        let (lo, hi) = next.freq_range();
        self.device_kind = next;
        self.sample_rate_idx = sample_rate_idx;
        self.gain_idx = gain_idx;
        self.clamp_indices_to_device();
        self.center_freq = if self.center_freq < lo {
            lo
        } else if self.center_freq > hi {
            hi
        } else {
            self.center_freq
        };
    }

    fn cycle_sample_rate(&mut self, delta: i32) -> (r: Option<DspCommand>)
        requires
            old(self)@.wf(),
            old(self).sample_rate_idx + delta <= i32::MAX,
        ensures
            (final(self)@, r) == old(self)@.cycle_sample_rate(delta),
    {
        let opts = self.device_kind.sample_rate_options();
        let new_idx = wrap_index(self.sample_rate_idx, delta, opts.len());
        if new_idx == self.sample_rate_idx {
            return None;
        }
        self.sample_rate_idx = new_idx;
        None
    }

    fn toggle_gain_mode(&mut self) -> (r: Option<DspCommand>)
        requires
            old(self)@.wf(),
        ensures
            (final(self)@, r) == old(self)@.toggle_gain_mode(),
    {
        self.agc_enabled = !self.agc_enabled;
        if self.agc_enabled {
            Some(DspCommand::SetAgcMode(true))
        } else {
            let opts = self.device_kind.gain_options_tenths();
            Some(DspCommand::SetManualGain(opts[self.gain_idx]))
        }
    }

    fn cycle_manual_gain(&mut self, delta: i32) -> (r: Option<DspCommand>)
        requires
            old(self)@.wf(),
            !old(self).agc_enabled ==> old(self).gain_idx + delta <= i32::MAX,
        ensures
            (final(self)@, r) == old(self)@.cycle_manual_gain(delta),
    {
        if self.agc_enabled {
            return None;
        }
        let opts = self.device_kind.gain_options_tenths();
        let new_idx = wrap_index(self.gain_idx, delta, opts.len());
        self.gain_idx = new_idx;
        Some(DspCommand::SetManualGain(opts[self.gain_idx]))
    }

    pub(crate) fn handle_source_key(&mut self, key: Key)
        requires
            old(self)@.wf(),
        ensures
            final(self)@ == old(self)@.handle_source_key(key),
    {
        match key {
            Key::Esc => {
                self.mode = AppMode::Normal;
            },
            Key::Enter => {
                if self.source_focus == SourceField::Connect {
                    self.request_connect();
                } else {
                    self.mode = AppMode::Normal;
                }
            },
            Key::Up | Key::BackTab => {
                self.source_focus = self.source_focus.prev();
            },
            Key::Down | Key::Tab => {
                self.source_focus = self.source_focus.next();
            },
            Key::Right => {
                if let Some(cmd) = self.source_cycle(1) {
                    self.send_cmd(cmd);
                }
            },
            Key::Left => {
                if let Some(cmd) = self.source_cycle(-1) {
                    self.send_cmd(cmd);
                }
            },
            _ => {},
        }
    }
}

} // verus!
