//! The state machine of the application, as spec functions on [`AppState`].
//! Each executable method of [`App`] is specified as one of these
//! transitions.

use vstd::prelude::*;

use super::{
    AppMode, AppState, ConnectionModel, MinMaxFocus, DB_STEP, NUDGE_HZ, SQUELCH_MAX, SQUELCH_MIN,
    SQUELCH_STEP, VFO_MAX_HZ,
};
use crate::command::DspCommand;
use crate::device_kind::DeviceKind;
use crate::key::Key;
use crate::radio::{RadioField, RadioMode};
use crate::source::SourceField;
use crate::VFO_DIGITS;

verus! {

/// `10^n`.
pub open spec fn pow10(n: nat) -> nat
    decreases n,
{
    if n == 0 {
        1
    } else {
        10 * pow10((n - 1) as nat)
    }
}

/// `x + y`, saturating at `u64::MAX`.
pub open spec fn sat_add_u64(x: u64, y: u64) -> u64 {
    if x + y > u64::MAX {
        u64::MAX
    } else {
        (x + y) as u64
    }
}

/// `x - y`, saturating at zero.
pub open spec fn sat_sub_u64(x: u64, y: u64) -> u64 {
    if x < y {
        0
    } else {
        (x - y) as u64
    }
}

/// `x` saturated into the range of `i64`.
pub open spec fn sat_i64(x: int) -> i64 {
    if x < i64::MIN {
        i64::MIN
    } else if x > i64::MAX {
        i64::MAX
    } else {
        x as i64
    }
}

pub open spec fn clamp_u64(x: u64, lo: u64, hi: u64) -> u64 {
    if x < lo {
        lo
    } else if x > hi {
        hi
    } else {
        x
    }
}

pub open spec fn clamp_int(x: int, lo: int, hi: int) -> int {
    if x < lo {
        lo
    } else if x > hi {
        hi
    } else {
        x
    }
}

pub open spec fn min_u64(a: u64, b: u64) -> u64 {
    if a <= b {
        a
    } else {
        b
    }
}

/// The sign of `x`: -1, 0 or 1.
pub open spec fn signum(x: i32) -> int {
    if x > 0 {
        1
    } else if x < 0 {
        -1
    } else {
        0
    }
}

/// `f` lies in the tunable range of device `d`.
pub open spec fn freq_in_range(d: DeviceKind, f: u64) -> bool {
    d.spec_freq_range().0 <= f <= d.spec_freq_range().1
}

impl AppState {
    /// The invariant that every operation keeps: the cursor is on a VFO
    /// digit, the frequency is tunable on the selected device (and so is the
    /// snapshot that cancelling the VFO editor restores), the dB range is
    /// non-empty (and so is the one that cancelling the dB editor restores),
    /// the squelch lies in its range, the option indices are valid for the
    /// device, and the remembered un-mute mode is not `Off`.
    pub open spec fn wf(self) -> bool {
        &&& self.vfo_cursor < VFO_DIGITS
        &&& freq_in_range(self.device_kind, self.center_freq)
        &&& self.mode == AppMode::EditingFrequency ==> freq_in_range(
            self.device_kind,
            self.vfo_freq_snapshot,
        )
        &&& self.y_min < self.y_max
        &&& self.mode == AppMode::EditingMinMax ==> self.y_min_snapshot < self.y_max_snapshot
        &&& SQUELCH_MIN <= self.squelch_db <= SQUELCH_MAX
        &&& self.sample_rate_idx < self.device_kind.sample_rate_count()
        &&& self.gain_idx < self.device_kind.gain_count()
        &&& self.last_radio_mode != RadioMode::Off
    }

    pub open spec fn is_connected(self) -> bool {
        self.connection is Connected
    }

    /// Queue `cmd` for the DSP thread; dropped when disconnected.
    pub open spec fn send(self, cmd: DspCommand) -> AppState {
        if self.is_connected() {
            AppState { outbox: self.outbox.push(cmd), ..self }
        } else {
            self
        }
    }

    /// Queue the current frequency, in Hz.
    pub open spec fn send_freq(self) -> AppState {
        self.send(DspCommand::TuneFrequency(self.center_freq))
    }

    pub open spec fn with_mode(self, mode: AppMode) -> AppState {
        AppState { mode, ..self }
    }

    // ---- connection ---------------------------------------------------

    pub open spec fn set_connected(self) -> AppState {
        AppState { connection: ConnectionModel::Connected, ..self }.send_freq().send(
            DspCommand::SetRadioMode(self.radio_mode.spec_code()),
        ).send(DspCommand::SetSquelchDb(self.squelch_db))
    }

    pub open spec fn set_disconnected(self, error: Option<Seq<char>>) -> AppState {
        AppState { connection: ConnectionModel::Disconnected { last_error: error }, ..self }
    }

    // ---- VFO ----------------------------------------------------------

    /// Place value of the cursor digit.
    pub open spec fn vfo_step(self) -> u64 {
        pow10(self.vfo_cursor as nat) as u64
    }

    /// Clamp `freq` into the device's range (and the widget's) and tune.
    pub open spec fn set_center_freq_clamped(self, freq: u64) -> AppState {
        let (lo, hi) = self.device_kind.spec_freq_range();
        AppState {
            center_freq: clamp_u64(freq, lo, min_u64(hi, VFO_MAX_HZ)),
            ..self
        }.send_freq()
    }

    pub open spec fn vfo_increment(self) -> AppState {
        self.set_center_freq_clamped(sat_add_u64(self.center_freq, self.vfo_step()))
    }

    pub open spec fn vfo_decrement(self) -> AppState {
        self.set_center_freq_clamped(sat_sub_u64(self.center_freq, self.vfo_step()))
    }

    /// Zero every digit right of the cursor.
    pub open spec fn vfo_zero_right(self) -> AppState {
        let step = self.vfo_step();
        self.set_center_freq_clamped((self.center_freq / step * step) as u64)
    }

    pub open spec fn handle_freq_key(self, key: Key) -> AppState {
        match key {
            Key::Esc => AppState {
                center_freq: self.vfo_freq_snapshot,
                ..self
            }.send_freq().with_mode(AppMode::Normal),
            Key::Enter => self.with_mode(AppMode::Normal),
            Key::Left => if self.vfo_cursor < VFO_DIGITS - 1 {
                AppState { vfo_cursor: (self.vfo_cursor + 1) as usize, ..self }
            } else {
                self
            },
            Key::Right => if self.vfo_cursor > 0 {
                AppState { vfo_cursor: (self.vfo_cursor - 1) as usize, ..self }
            } else {
                self
            },
            Key::Up => self.vfo_increment(),
            Key::Down => self.vfo_decrement(),
            Key::Char(c) => if c == 'z' {
                self.vfo_zero_right()
            } else {
                self
            },
            _ => self,
        }
    }

    // ---- dB range -----------------------------------------------------

    /// Keep the minimum below the maximum by at least one step, moving the
    /// focused bound.
    pub open spec fn clamp_minmax(self) -> AppState {
        if self.y_min >= self.y_max - DB_STEP {
            match self.minmax_focus {
                MinMaxFocus::Min => AppState { y_min: sat_i64(self.y_max - DB_STEP), ..self },
                MinMaxFocus::Max => AppState { y_max: sat_i64(self.y_min + DB_STEP), ..self },
            }
        } else {
            self
        }
    }

    pub open spec fn minmax_step_up(self) -> AppState {
        match self.minmax_focus {
            MinMaxFocus::Min => AppState { y_min: sat_i64(self.y_min + DB_STEP), ..self },
            MinMaxFocus::Max => AppState { y_max: sat_i64(self.y_max + DB_STEP), ..self },
        }.clamp_minmax()
    }

    pub open spec fn minmax_step_down(self) -> AppState {
        match self.minmax_focus {
            MinMaxFocus::Min => AppState { y_min: sat_i64(self.y_min - DB_STEP), ..self },
            MinMaxFocus::Max => AppState { y_max: sat_i64(self.y_max - DB_STEP), ..self },
        }.clamp_minmax()
    }

    pub open spec fn handle_minmax_key(self, key: Key) -> AppState {
        match key {
            Key::Esc => AppState {
                y_min: self.y_min_snapshot,
                y_max: self.y_max_snapshot,
                mode: AppMode::Normal,
                ..self
            },
            Key::Enter => self.with_mode(AppMode::Normal),
            Key::Tab | Key::BackTab => AppState {
                minmax_focus: match self.minmax_focus {
                    MinMaxFocus::Min => MinMaxFocus::Max,
                    MinMaxFocus::Max => MinMaxFocus::Min,
                },
                ..self
            },
            Key::Up => self.minmax_step_up(),
            Key::Down => self.minmax_step_down(),
            _ => self,
        }
    }

    // ---- radio --------------------------------------------------------

    pub open spec fn set_radio_mode(self, mode: RadioMode) -> AppState {
        AppState { radio_mode: mode, ..self }.send(DspCommand::SetRadioMode(mode.spec_code()))
    }

    /// Switch between `Off` and the last active mode.
    pub open spec fn toggle_mute(self) -> AppState {
        if self.radio_mode == RadioMode::Off {
            self.set_radio_mode(self.last_radio_mode)
        } else {
            AppState { last_radio_mode: self.radio_mode, ..self }.set_radio_mode(RadioMode::Off)
        }
    }

    /// The mode one step from the current one in the direction of `delta`
    /// (every mode is supported, so none is skipped).
    pub open spec fn cycled_mode(self, delta: i32) -> RadioMode {
        if delta >= 0 {
            self.radio_mode.spec_next()
        } else {
            self.radio_mode.spec_prev()
        }
    }

    pub open spec fn radio_cycle(self, delta: i32) -> AppState {
        match self.radio_focus {
            RadioField::Mode => {
                let next = self.cycled_mode(delta);
                let s = if next != RadioMode::Off {
                    AppState { last_radio_mode: next, ..self }
                } else {
                    self
                };
                s.set_radio_mode(next)
            },
            RadioField::Squelch => {
                let sq = clamp_int(
                    self.squelch_db + SQUELCH_STEP * signum(delta),
                    SQUELCH_MIN as int,
                    SQUELCH_MAX as int,
                ) as i32;
                AppState { squelch_db: sq, ..self }.send(DspCommand::SetSquelchDb(sq))
            },
        }
    }

    pub open spec fn handle_radio_key(self, key: Key) -> AppState {
        match key {
            Key::Esc | Key::Enter => self.with_mode(AppMode::Normal),
            Key::Up => AppState { radio_focus: self.radio_focus.spec_prev(), ..self },
            Key::Down | Key::Tab | Key::BackTab => AppState {
                radio_focus: self.radio_focus.spec_next(),
                ..self
            },
            Key::Right => self.radio_cycle(1),
            Key::Left => self.radio_cycle(-1i32),
            _ => self,
        }
    }

    // ---- source -------------------------------------------------------

    pub open spec fn request_connect(self) -> AppState {
        AppState { connect_requested: true, ..self }
    }

    pub open spec fn request_disconnect(self) -> AppState {
        AppState { disconnect_requested: true, ..self }
    }

    /// Whether a connect was requested, and the state with the request
    /// consumed.
    pub open spec fn take_connect_request(self) -> (bool, AppState) {
        (self.connect_requested, AppState { connect_requested: false, ..self })
    }

    /// Whether a disconnect was requested, and the state with the request
    /// consumed.
    pub open spec fn take_disconnect_request(self) -> (bool, AppState) {
        (self.disconnect_requested, AppState { disconnect_requested: false, ..self })
    }

    /// The queued commands, and the state with the queue emptied.
    pub open spec fn take_commands(self) -> (Seq<DspCommand>, AppState) {
        (self.outbox, AppState { outbox: Seq::empty(), ..self })
    }

    /// Snap the option indices into the current device's tables.
    pub open spec fn clamp_indices_to_device(self) -> AppState {
        let s = if self.sample_rate_idx >= self.device_kind.sample_rate_count() {
            AppState {
                sample_rate_idx: self.device_kind.spec_default_sample_rate_idx(),
                ..self
            }
        } else {
            self
        };
        if s.gain_idx >= s.device_kind.gain_count() {
            AppState { gain_idx: s.device_kind.spec_default_gain_idx(), ..s }
        } else {
            s
        }
    }

    /// The device one step from the current one in the direction of
    /// `delta` (every device is supported, so none is skipped).
    pub open spec fn cycled_device(self, delta: i32) -> DeviceKind {
        if delta >= 0 {
            self.device_kind.spec_next()
        } else {
            self.device_kind.spec_prev()
        }
    }

    /// `(idx + delta)` wrapped into `0..len`.
    pub open spec fn wrap_index(idx: usize, delta: i32, len: nat) -> usize {
        ((idx + delta) % (len as int)) as usize
    }

    /// Switch to the next (or previous) supported device: rates and gains
    /// reset to the device defaults, the frequency clamped into its range,
    /// the focus on Connect, and a disconnect requested while connected.
    pub open spec fn cycle_device(self, delta: i32) -> (AppState, Option<DspCommand>) {
        let next = self.cycled_device(delta);
        if next == self.device_kind {
            (self, None)
        } else {
            let s2 = self.switch_device(next);
            let s3 = if s2.is_connected() {
                s2.request_disconnect()
            } else {
                s2
            };
            (AppState { source_focus: SourceField::Connect, ..s3 }, None)
        }
    }

    /// Select device `next`: its default rate and gain, and the frequency
    /// clamped into its range.
    pub open spec fn switch_device(self, next: DeviceKind) -> AppState {
        let s1 = AppState {
            device_kind: next,
            sample_rate_idx: next.spec_default_sample_rate_idx(),
            gain_idx: next.spec_default_gain_idx(),
            ..self
        }.clamp_indices_to_device();
        let (lo, hi) = next.spec_freq_range();
        AppState { center_freq: clamp_u64(s1.center_freq, lo, hi), ..s1 }
    }

    pub open spec fn cycle_sample_rate(self, delta: i32) -> (AppState, Option<DspCommand>) {
        let len = self.device_kind.sample_rate_count();
        let new_idx = Self::wrap_index(self.sample_rate_idx, delta, len);
        if new_idx == self.sample_rate_idx {
            (self, None)
        } else {
            (AppState { sample_rate_idx: new_idx, ..self }, None)
        }
    }

    pub open spec fn toggle_gain_mode(self) -> (AppState, Option<DspCommand>) {
        let agc = !self.agc_enabled;
        let s = AppState { agc_enabled: agc, ..self };
        if agc {
            (s, Some(DspCommand::SetAgcMode(true)))
        } else {
            (s, Some(DspCommand::SetManualGain(self.device_kind.gains_tenths()[self.gain_idx as int])))
        }
    }

    pub open spec fn cycle_manual_gain(self, delta: i32) -> (AppState, Option<DspCommand>) {
        if self.agc_enabled {
            (self, None)
        } else {
            let len = self.device_kind.gain_count();
            let new_idx = Self::wrap_index(self.gain_idx, delta, len);
            (
                AppState { gain_idx: new_idx, ..self },
                Some(DspCommand::SetManualGain(self.device_kind.gains_tenths()[new_idx as int])),
            )
        }
    }

    /// Cycle the focused Source field's value; the state after, and the
    /// command owed to the DSP thread, if any.
    pub open spec fn source_cycle(self, delta: i32) -> (AppState, Option<DspCommand>) {
        match self.source_focus {
            SourceField::Device => self.cycle_device(delta),
            SourceField::Connect => (self, None),
            SourceField::SampleRate => self.cycle_sample_rate(delta),
            SourceField::GainMode => self.toggle_gain_mode(),
            SourceField::ManualGain => self.cycle_manual_gain(delta),
        }
    }

    /// Cycle the focused Source field and send the resulting command.
    pub open spec fn source_cycle_and_send(self, delta: i32) -> AppState {
        let (s, cmd) = self.source_cycle(delta);
        match cmd {
            Some(c) => s.send(c),
            None => s,
        }
    }

    /// The cycle steps cannot overflow the 32-bit index arithmetic.
    pub open spec fn cycle_fits(self, delta: i32) -> bool {
        &&& self.source_focus == SourceField::SampleRate ==> self.sample_rate_idx + delta
            <= i32::MAX
        &&& (self.source_focus == SourceField::ManualGain && !self.agc_enabled) ==> self.gain_idx
            + delta <= i32::MAX
    }

    pub open spec fn handle_source_key(self, key: Key) -> AppState {
        match key {
            Key::Esc => self.with_mode(AppMode::Normal),
            Key::Enter => if self.source_focus == SourceField::Connect {
                self.request_connect()
            } else {
                self.with_mode(AppMode::Normal)
            },
            Key::Up | Key::BackTab => AppState {
                source_focus: self.source_focus.spec_prev(),
                ..self
            },
            Key::Down | Key::Tab => AppState {
                source_focus: self.source_focus.spec_next(),
                ..self
            },
            Key::Right => self.source_cycle_and_send(1),
            Key::Left => self.source_cycle_and_send(-1i32),
            _ => self,
        }
    }

    // ---- help and normal mode ------------------------------------------

    pub open spec fn handle_help_key(self, key: Key) -> AppState {
        match key {
            Key::Esc | Key::Enter => self.with_mode(AppMode::Normal),
            Key::Char(c) => if c == 'h' || c == 'q' {
                self.with_mode(AppMode::Normal)
            } else {
                self
            },
            _ => self,
        }
    }

    pub open spec fn handle_char_key(self, c: char) -> AppState {
        if c == 'q' {
            AppState { running: false, ..self }
        } else if c == 'f' {
            AppState { vfo_freq_snapshot: self.center_freq, mode: AppMode::EditingFrequency, ..self }
        } else if c == 'm' {
            AppState {
                y_min_snapshot: self.y_min,
                y_max_snapshot: self.y_max,
                minmax_focus: MinMaxFocus::Min,
                mode: AppMode::EditingMinMax,
                ..self
            }
        } else if c == 'o' {
            AppState { show_overlay: !self.show_overlay, ..self }
        } else if c == 'd' {
            self.toggle_mute()
        } else if c == 's' {
            AppState { source_focus: SourceField::Device, mode: AppMode::EditingSource, ..self }
        } else if c == 'r' {
            AppState { radio_focus: RadioField::Mode, mode: AppMode::EditingRadio, ..self }
        } else if c == 'h' {
            self.with_mode(AppMode::Help)
        } else if c == ' ' {
            // Start or stop the data stream.
            if self.is_connected() {
                self.request_disconnect()
            } else {
                self.request_connect()
            }
        } else {
            self
        }
    }

    pub open spec fn handle_normal_key(self, key: Key) -> AppState {
        match key {
            Key::Char(c) => self.handle_char_key(c),
            Key::Right => self.set_center_freq_clamped(sat_add_u64(self.center_freq, NUDGE_HZ)),
            Key::Left => self.set_center_freq_clamped(sat_sub_u64(self.center_freq, NUDGE_HZ)),
            _ => self,
        }
    }

    /// Route a key press to the handler of the current mode.
    pub open spec fn handle_key(self, key: Key) -> AppState {
        match self.mode {
            AppMode::Normal => self.handle_normal_key(key),
            AppMode::EditingFrequency => self.handle_freq_key(key),
            AppMode::EditingMinMax => self.handle_minmax_key(key),
            AppMode::EditingSource => self.handle_source_key(key),
            AppMode::EditingRadio => self.handle_radio_key(key),
            AppMode::Help => self.handle_help_key(key),
        }
    }

    /// `handle_key` cannot overflow on `key` from this state.
    pub open spec fn key_fits(self, key: Key) -> bool {
        self.mode == AppMode::EditingSource ==> match key {
            Key::Right => self.cycle_fits(1),
            Key::Left => self.cycle_fits(-1i32),
            _ => true,
        }
    }
}

} // verus!
