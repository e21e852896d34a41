//! Application state: what the user has tuned and selected, which popup is
//! open, and the commands owed to the DSP side. Key handling is a function
//! from state and key to the next state; the terminal loop around it lives
//! outside the library.

use vstd::prelude::*;

use crate::command::DspCommand;
use crate::device_kind::DeviceKind;
use crate::key::Key;
use crate::radio::{RadioField, RadioMode};
use crate::source::SourceField;
use laws::lemma_handle_key_wf;

pub mod db_range;
pub mod key_laws;
pub mod laws;
pub mod model;
pub mod persist;
pub mod radio;
pub mod source;
pub mod vfo;

verus! {

/// Step of the dB-range stepper (5 dB), in tenths of a dB.
pub const DB_STEP: i64 = 50;

/// Squelch threshold bounds and step (-100 dB, 0 dB, 5 dB), in tenths of
/// a dB.
pub const SQUELCH_MIN: i32 = -1000;

pub const SQUELCH_MAX: i32 = 0;

pub const SQUELCH_STEP: i32 = 50;

/// Frequency nudge of the Left / Right keys in normal mode (0.1 MHz).
pub const NUDGE_HZ: u64 = 100_000;

/// Largest frequency the VFO widget can show (`VFO_DIGITS` nines).
pub const VFO_MAX_HZ: u64 = 9_999_999_999;

#[derive(Debug, Clone, Copy, PartialEq, Eq, Structural)]
pub enum AppMode {
    Normal,
    EditingFrequency,
    EditingMinMax,
    EditingSource,
    EditingRadio,
    Help,
}

/// Which bound of the dB range the stepper edits.
#[derive(Debug, Clone, Copy, PartialEq, Eq, Structural)]
pub enum MinMaxFocus {
    Min,
    Max,
}

#[derive(Debug, Clone, PartialEq, Eq)]
pub enum ConnectionState {
    Disconnected { last_error: Option<String> },
    Connected,
}

/// The mathematical value of a [`ConnectionState`].
pub enum ConnectionModel {
    Disconnected { last_error: Option<Seq<char>> },
    Connected,
}

impl View for ConnectionState {
    type V = ConnectionModel;

    open spec fn view(&self) -> ConnectionModel {
        match self {
            ConnectionState::Disconnected { last_error } => ConnectionModel::Disconnected {
                last_error: last_error.deep_view(),
            },
            ConnectionState::Connected => ConnectionModel::Connected,
        }
    }
}

/// The application state. The spectrum and waterfall frames and the channel
/// ends to the DSP thread are held by the caller, beside this value.
pub struct App {
    pub running: bool,
    pub mode: AppMode,
    /// Whether the DSP thread is currently running.
    pub connection: ConnectionState,
    /// Set when the user presses Connect in the Source popup; consumed by
    /// [`App::take_connect_request`].
    pub connect_requested: bool,
    /// Set when a configuration change makes the running flowgraph stale;
    /// consumed by [`App::take_disconnect_request`].
    pub disconnect_requested: bool,
    /// Tuned frequency in Hz.
    pub center_freq: u64,
    /// Selected VFO digit (0 = ones place, 9 = billions place).
    pub vfo_cursor: usize,
    /// Frequency when the VFO editor was opened, restored on cancel.
    pub vfo_freq_snapshot: u64,
    pub show_overlay: bool,
    /// Y-axis bounds in tenths of a dB.
    pub y_min: i64,
    pub y_max: i64,
    pub minmax_focus: MinMaxFocus,
    /// Bounds when the dB-range editor was opened, restored on cancel.
    pub y_min_snapshot: i64,
    pub y_max_snapshot: i64,
    pub source_focus: SourceField,
    /// Selected SDR device.
    pub device_kind: DeviceKind,
    /// Index into the device's sample-rate options.
    pub sample_rate_idx: usize,
    /// AGC enabled (true) or manual gain (false).
    pub agc_enabled: bool,
    /// Index into the device's manual-gain options.
    pub gain_idx: usize,
    pub radio_focus: RadioField,
    pub radio_mode: RadioMode,
    /// Last mode other than `Off`, restored when audio is un-muted.
    pub last_radio_mode: RadioMode,
    /// Squelch threshold in tenths of a dB.
    pub squelch_db: i32,
    /// Commands for the DSP thread, oldest first, not yet handed out.
    pub outbox: Vec<DspCommand>,
}

/// The mathematical value of an [`App`].
#[verifier::ext_equal]
pub struct AppState {
    pub running: bool,
    pub mode: AppMode,
    pub connection: ConnectionModel,
    pub connect_requested: bool,
    pub disconnect_requested: bool,
    pub center_freq: u64,
    pub vfo_cursor: usize,
    pub vfo_freq_snapshot: u64,
    pub show_overlay: bool,
    pub y_min: i64,
    pub y_max: i64,
    pub minmax_focus: MinMaxFocus,
    pub y_min_snapshot: i64,
    pub y_max_snapshot: i64,
    pub source_focus: SourceField,
    pub device_kind: DeviceKind,
    pub sample_rate_idx: usize,
    pub agc_enabled: bool,
    pub gain_idx: usize,
    pub radio_focus: RadioField,
    pub radio_mode: RadioMode,
    pub last_radio_mode: RadioMode,
    pub squelch_db: i32,
    pub outbox: Seq<DspCommand>,
}

impl View for App {
    type V = AppState;

    open spec fn view(&self) -> AppState {
        AppState {
            running: self.running,
            mode: self.mode,
            connection: self.connection@,
            connect_requested: self.connect_requested,
            disconnect_requested: self.disconnect_requested,
            center_freq: self.center_freq,
            vfo_cursor: self.vfo_cursor,
            vfo_freq_snapshot: self.vfo_freq_snapshot,
            show_overlay: self.show_overlay,
            y_min: self.y_min,
            y_max: self.y_max,
            minmax_focus: self.minmax_focus,
            y_min_snapshot: self.y_min_snapshot,
            y_max_snapshot: self.y_max_snapshot,
            source_focus: self.source_focus,
            device_kind: self.device_kind,
            sample_rate_idx: self.sample_rate_idx,
            agc_enabled: self.agc_enabled,
            gain_idx: self.gain_idx,
            radio_focus: self.radio_focus,
            radio_mode: self.radio_mode,
            last_radio_mode: self.last_radio_mode,
            squelch_db: self.squelch_db,
            outbox: self.outbox@,
        }
    }
}

impl AppState {
    /// The state of a freshly started application.
    pub open spec fn initial() -> AppState {
        AppState {
            running: true,
            mode: AppMode::Normal,
            connection: ConnectionModel::Disconnected { last_error: None },
            connect_requested: false,
            disconnect_requested: false,
            center_freq: 100_000_000,
            vfo_cursor: 6,
            vfo_freq_snapshot: 0,
            show_overlay: true,
            y_min: -100i64,
            y_max: 1000,
            minmax_focus: MinMaxFocus::Min,
            y_min_snapshot: 0,
            y_max_snapshot: 0,
            source_focus: SourceField::Device,
            device_kind: DeviceKind::RtlSdr,
            sample_rate_idx: DeviceKind::RtlSdr.spec_default_sample_rate_idx(),
            agc_enabled: true,
            gain_idx: DeviceKind::RtlSdr.spec_default_gain_idx(),
            radio_focus: RadioField::Mode,
            radio_mode: RadioMode::Off,
            last_radio_mode: RadioMode::WBFM,
            squelch_db: -500i32,
            outbox: Seq::empty(),
        }
    }
}

impl App {
    /// A disconnected application tuned to 100 MHz on the default device,
    /// with the cursor on the MHz digit, audio off and the squelch at -50 dB.
    pub fn new() -> (r: App)
        ensures
            r@ == AppState::initial(),
            r@.wf(),
    {
        let device_kind = DeviceKind::default();
        App {
            running: true,
            mode: AppMode::Normal,
            connection: ConnectionState::Disconnected { last_error: None },
            connect_requested: false,
            disconnect_requested: false,
            center_freq: 100_000_000,
            vfo_cursor: 6,
            vfo_freq_snapshot: 0,
            show_overlay: true,
            y_min: -100,
            y_max: 1000,
            minmax_focus: MinMaxFocus::Min,
            y_min_snapshot: 0,
            y_max_snapshot: 0,
            source_focus: SourceField::Device,
            device_kind,
            sample_rate_idx: device_kind.default_sample_rate_idx(),
            agc_enabled: true,
            gain_idx: device_kind.default_gain_idx(),
            radio_focus: RadioField::Mode,
            radio_mode: RadioMode::Off,
            last_radio_mode: RadioMode::WBFM,
            squelch_db: -500,
            outbox: Vec::new(),
        }
    }

    pub fn is_connected(&self) -> (r: bool)
        ensures
            r == self@.is_connected(),
    {
        match self.connection {
            ConnectionState::Connected => true,
            ConnectionState::Disconnected { .. } => false,
        }
    }

    /// Queue `cmd` for the DSP thread; a no-op while disconnected.
    pub fn send_cmd(&mut self, cmd: DspCommand)
        ensures
            final(self)@ == old(self)@.send(cmd),
            old(self)@.wf() ==> final(self)@.wf(),
    {
        if self.is_connected() {
            self.outbox.push(cmd);
        }
    }

    /// Queue the current frequency for the DSP thread (a no-op while
    /// disconnected). The caller drains stale spectrum frames before it
    /// hands a `TuneFrequency` command on.
    pub fn send_freq(&mut self)
        ensures
            final(self)@ == old(self)@.send_freq(),
            old(self)@.wf() ==> final(self)@.wf(),
    {
        let hz = self.center_freq;
        self.send_cmd(DspCommand::TuneFrequency(hz));
    }

    /// Hand out the queued commands, oldest first, and empty the queue.
    pub fn take_commands(&mut self) -> (r: Vec<DspCommand>)
        ensures
            (r@, final(self)@) == old(self)@.take_commands(),
            old(self)@.wf() ==> final(self)@.wf(),
    {
        let mut out = Vec::new();
        std::mem::swap(&mut out, &mut self.outbox);
        out
    }

    /// Record a fresh connection and push the current frequency, radio mode
    /// and squelch to the new DSP thread.
    pub fn set_connected(&mut self)
        ensures
            final(self)@ == old(self)@.set_connected(),
            old(self)@.wf() ==> final(self)@.wf(),
    {
        self.connection = ConnectionState::Connected;
        self.send_freq();
        let code = self.radio_mode.code();
        self.send_cmd(DspCommand::SetRadioMode(code));
        let sq = self.squelch_db;
        self.send_cmd(DspCommand::SetSquelchDb(sq));
    }

    /// Record that the DSP thread is gone, with the error that ended the
    /// last connect attempt, if any.
    pub fn set_disconnected(&mut self, error: Option<String>)
        ensures
            final(self)@ == old(self)@.set_disconnected(error.deep_view()),
            old(self)@.wf() ==> final(self)@.wf(),
    {
        self.connection = ConnectionState::Disconnected { last_error: error };
    }

    /// The user asked to (re)connect via the Source popup.
    pub fn request_connect(&mut self)
        ensures
            final(self)@ == old(self)@.request_connect(),
            old(self)@.wf() ==> final(self)@.wf(),
    {
        self.connect_requested = true;
    }

    /// True exactly once after `request_connect`.
    pub fn take_connect_request(&mut self) -> (r: bool)
        ensures
            (r, final(self)@) == old(self)@.take_connect_request(),
            old(self)@.wf() ==> final(self)@.wf(),
    {
        let r = self.connect_requested;
        self.connect_requested = false;
        r
    }

    /// Mark the running flowgraph as stale (device changed).
    pub fn request_disconnect(&mut self)
        ensures
            final(self)@ == old(self)@.request_disconnect(),
            old(self)@.wf() ==> final(self)@.wf(),
    {
        self.disconnect_requested = true;
    }

    /// True exactly once after `request_disconnect`.
    pub fn take_disconnect_request(&mut self) -> (r: bool)
        ensures
            (r, final(self)@) == old(self)@.take_disconnect_request(),
            old(self)@.wf() ==> final(self)@.wf(),
    {
        let r = self.disconnect_requested;
        self.disconnect_requested = false;
        r
    }

    /// Whether the state is well formed (see [`AppState::wf`]). Every
    /// operation of the library keeps it so; callers that write fields
    /// directly can check it before handing the state back.
    pub fn invariant_holds(&self) -> (r: bool)
        ensures
            r == self@.wf(),
    {
        let (lo, hi) = self.device_kind.freq_range();
        let freq_ok = lo <= self.center_freq && self.center_freq <= hi;
        let snapshot_ok = self.mode != AppMode::EditingFrequency || (lo <= self.vfo_freq_snapshot
            && self.vfo_freq_snapshot <= hi);
        let bounds_ok = self.mode != AppMode::EditingMinMax || self.y_min_snapshot
            < self.y_max_snapshot;
        &&& self.vfo_cursor < crate::VFO_DIGITS
        &&& freq_ok
        &&& snapshot_ok
        &&& self.y_min < self.y_max
        &&& bounds_ok
        &&& SQUELCH_MIN <= self.squelch_db && self.squelch_db <= SQUELCH_MAX
        &&& self.sample_rate_idx < self.device_kind.sample_rate_options().len()
        &&& self.gain_idx < self.device_kind.gain_options_tenths().len()
        &&& self.last_radio_mode != RadioMode::Off
    }

    /// True when the radio is producing audio (any mode other than `Off`).
    pub fn audio_active(&self) -> (r: bool)
        ensures
            r == (self.radio_mode != RadioMode::Off),
    {
        self.radio_mode != RadioMode::Off
    }

    /// Top-level key dispatch to the handler of the current mode.
    #[verifier::spinoff_prover]
    pub fn handle_key(&mut self, key: Key)
        requires
            old(self)@.wf(),
        ensures
            final(self)@ == old(self)@.handle_key(key),
            final(self)@.wf(),
    {
        proof {
            lemma_handle_key_wf(self@, key);
        }
        match self.mode {
            AppMode::Normal => self.handle_normal_key(key),
            AppMode::EditingFrequency => self.handle_freq_key(key),
            AppMode::EditingMinMax => self.handle_minmax_key(key),
            AppMode::EditingSource => self.handle_source_key(key),
            AppMode::EditingRadio => self.handle_radio_key(key),
            AppMode::Help => self.handle_help_key(key),
        }
    }

    fn handle_help_key(&mut self, key: Key)
        ensures
            final(self)@ == old(self)@.handle_help_key(key),
    {
        match key {
            Key::Esc | Key::Enter => {
                self.mode = AppMode::Normal;
            },
            Key::Char(c) => {
                if c == 'h' || c == 'q' {
                    self.mode = AppMode::Normal;
                }
            },
            _ => {},
        }
    }

    #[verifier::spinoff_prover]
    fn handle_normal_key(&mut self, key: Key)
        requires
            old(self)@.wf(),
        ensures
            final(self)@ == old(self)@.handle_normal_key(key),
    {
        match key {
            Key::Char(c) => {
                if c == 'q' {
                    self.running = false;
                } else if c == 'f' {
                    self.vfo_freq_snapshot = self.center_freq;
                    self.mode = AppMode::EditingFrequency;
                } else if c == 'm' {
                    self.y_min_snapshot = self.y_min;
                    self.y_max_snapshot = self.y_max;
                    self.minmax_focus = MinMaxFocus::Min;
                    self.mode = AppMode::EditingMinMax;
                } else if c == 'o' {
                    self.show_overlay = !self.show_overlay;
                } else if c == 'd' {
                    self.toggle_mute();
                } else if c == 's' {
                    self.source_focus = SourceField::Device;
                    self.mode = AppMode::EditingSource;
                } else if c == 'r' {
                    self.radio_focus = RadioField::Mode;
                    self.mode = AppMode::EditingRadio;
                } else if c == 'h' {
                    self.mode = AppMode::Help;
                } else if c == ' ' {
                    // Start or stop the data stream.
                    if self.is_connected() {
                        self.request_disconnect();
                    } else {
                        self.request_connect();
                    }
                }
            },
            Key::Right => {
                let f = self.center_freq.saturating_add(NUDGE_HZ);
                self.set_center_freq_clamped(f);
            },
            Key::Left => {
                let f = self.center_freq.saturating_sub(NUDGE_HZ);
                self.set_center_freq_clamped(f);
            },
            _ => {},
        }
    }
}

} // verus!
