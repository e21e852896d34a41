//! Persisted user settings: what is saved at exit and how a loaded
//! configuration is validated before it is applied. Reading and writing
//! the file happen outside the library.

use vstd::prelude::*;

use super::model::{clamp_int, clamp_u64};
use super::{App, AppMode, AppState, SQUELCH_MAX, SQUELCH_MIN};
use crate::device_kind::DeviceKind;
use crate::radio::RadioMode;
use crate::text::str_equals;

verus! {

/// Saved settings. The radio modes are stored by name, the dB values in
/// tenths of a dB.
#[derive(Debug, Clone)]
pub struct PersistedConfig {
    pub device_kind: DeviceKind,
    pub center_freq: u64,
    pub y_min: i64,
    pub y_max: i64,
    pub show_overlay: bool,
    pub radio_mode: String,
    pub last_radio_mode: String,
    pub squelch_db: i32,
    pub sample_rate_idx: usize,
    pub agc_enabled: bool,
    pub gain_idx: usize,
}

/// The mathematical value of a [`PersistedConfig`].
pub struct ConfigModel {
    pub device_kind: DeviceKind,
    pub center_freq: u64,
    pub y_min: i64,
    pub y_max: i64,
    pub show_overlay: bool,
    pub radio_mode: Seq<char>,
    pub last_radio_mode: Seq<char>,
    pub squelch_db: i32,
    pub sample_rate_idx: usize,
    pub agc_enabled: bool,
    pub gain_idx: usize,
}

impl View for PersistedConfig {
    type V = ConfigModel;

    open spec fn view(&self) -> ConfigModel {
        ConfigModel {
            device_kind: self.device_kind,
            center_freq: self.center_freq,
            y_min: self.y_min,
            y_max: self.y_max,
            show_overlay: self.show_overlay,
            radio_mode: self.radio_mode@,
            last_radio_mode: self.last_radio_mode@,
            squelch_db: self.squelch_db,
            sample_rate_idx: self.sample_rate_idx,
            agc_enabled: self.agc_enabled,
            gain_idx: self.gain_idx,
        }
    }
}

/// The mode a stored name stands for; unknown names read as `Off`.
pub open spec fn mode_from_chars(s: Seq<char>) -> RadioMode {
    if s == "WBFM"@ {
        RadioMode::WBFM
    } else if s == "NBFM"@ {
        RadioMode::NBFM
    } else if s == "AM"@ {
        RadioMode::AM
    } else {
        RadioMode::Off
    }
}

/// Name under which a mode is stored.
pub fn mode_to_str(m: RadioMode) -> (r: &'static str)
    ensures
        r@ == m.spec_label(),
{
    match m {
        RadioMode::Off => "Off",
        RadioMode::WBFM => "WBFM",
        RadioMode::NBFM => "NBFM",
        RadioMode::AM => "AM",
    }
}

/// The mode stored under `s`; anything unknown reads as `Off`.
pub fn mode_from_str(s: &str) -> (r: RadioMode)
    ensures
        r == mode_from_chars(s@),
{
    if str_equals(s, "WBFM") {
        RadioMode::WBFM
    } else if str_equals(s, "NBFM") {
        RadioMode::NBFM
    } else if str_equals(s, "AM") {
        RadioMode::AM
    } else {
        RadioMode::Off
    }
}

impl ConfigModel {
    /// The settings written when nothing was saved before.
    pub open spec fn default_model() -> ConfigModel {
        ConfigModel {
            device_kind: DeviceKind::RtlSdr,
            center_freq: 100_000_000,
            y_min: -100i64,
            y_max: 1000,
            show_overlay: true,
            radio_mode: "Off"@,
            last_radio_mode: "WBFM"@,
            squelch_db: -500i32,
            sample_rate_idx: 1,
            agc_enabled: true,
            gain_idx: DeviceKind::RtlSdr.spec_default_gain_idx(),
        }
    }
}

impl AppState {
    /// The settings saved from this state.
    pub open spec fn settings(self) -> ConfigModel {
        ConfigModel {
            device_kind: self.device_kind,
            center_freq: self.center_freq,
            y_min: self.y_min,
            y_max: self.y_max,
            show_overlay: self.show_overlay,
            radio_mode: self.radio_mode.spec_label(),
            last_radio_mode: self.last_radio_mode.spec_label(),
            squelch_db: self.squelch_db,
            sample_rate_idx: self.sample_rate_idx,
            agc_enabled: self.agc_enabled,
            gain_idx: self.gain_idx,
        }
    }

    /// Apply loaded settings, validating each: an unsupported device falls
    /// back to the default, the frequency is clamped into the device's
    /// range, an empty dB range falls back to -10..100 dB, the un-mute mode
    /// cannot be `Off` (it becomes WBFM), the squelch is clamped to
    /// -100..0 dB, and out-of-range option indices fall back to the device
    /// defaults.
    pub open spec fn apply_persisted(self, cfg: ConfigModel) -> AppState {
        let device = if cfg.device_kind.spec_is_supported() {
            cfg.device_kind
        } else {
            DeviceKind::RtlSdr
        };
        let (lo, hi) = device.spec_freq_range();
        let bad_range = cfg.y_min >= cfg.y_max;
        let last = mode_from_chars(cfg.last_radio_mode);
        AppState {
            device_kind: device,
            center_freq: clamp_u64(cfg.center_freq, lo, hi),
            y_min: if bad_range {
                -100i64
            } else {
                cfg.y_min
            },
            y_max: if bad_range {
                1000
            } else {
                cfg.y_max
            },
            show_overlay: cfg.show_overlay,
            radio_mode: mode_from_chars(cfg.radio_mode),
            last_radio_mode: if last == RadioMode::Off {
                RadioMode::WBFM
            } else {
                last
            },
            squelch_db: clamp_int(cfg.squelch_db as int, SQUELCH_MIN as int, SQUELCH_MAX as int) as i32,
            sample_rate_idx: if cfg.sample_rate_idx < device.sample_rate_count() {
                cfg.sample_rate_idx
            } else {
                device.spec_default_sample_rate_idx()
            },
            agc_enabled: cfg.agc_enabled,
            gain_idx: if cfg.gain_idx < device.gain_count() {
                cfg.gain_idx
            } else {
                device.spec_default_gain_idx()
            },
            ..self
        }
    }
}

impl Default for PersistedConfig {
    fn default() -> (r: PersistedConfig)
        ensures
            r@ == ConfigModel::default_model(),
    {
        let device_kind = DeviceKind::default();
        PersistedConfig {
            device_kind,
            center_freq: 100_000_000,
            y_min: -100,
            y_max: 1000,
            show_overlay: true,
            radio_mode: String::from_str("Off"),
            last_radio_mode: String::from_str("WBFM"),
            squelch_db: -500,
            sample_rate_idx: 1,
            agc_enabled: true,
            gain_idx: device_kind.default_gain_idx(),
        }
    }
}

impl PersistedConfig {
    /// The settings of `app` that are saved at exit.
    pub fn from_app(app: &App) -> (r: PersistedConfig)
        ensures
            r@ == app@.settings(),
    {
        PersistedConfig {
            device_kind: app.device_kind,
            center_freq: app.center_freq,
            y_min: app.y_min,
            y_max: app.y_max,
            show_overlay: app.show_overlay,
            radio_mode: String::from_str(mode_to_str(app.radio_mode)),
            last_radio_mode: String::from_str(mode_to_str(app.last_radio_mode)),
            squelch_db: app.squelch_db,
            sample_rate_idx: app.sample_rate_idx,
            agc_enabled: app.agc_enabled,
            gain_idx: app.gain_idx,
        }
    }
}

impl App {
    /// Apply a loaded configuration, validating where appropriate.
    #[verifier::spinoff_prover]
    pub fn apply_persisted(&mut self, cfg: PersistedConfig)
        ensures
            final(self)@ == old(self)@.apply_persisted(cfg@),
            old(self)@.wf() && old(self).mode != AppMode::EditingFrequency ==> final(self)@.wf(),
    {
        let device = if cfg.device_kind.is_supported() {
            cfg.device_kind
        } else {
            DeviceKind::default()
        };
        // Clamp to the device's supported range.
        let (lo, hi) = device.freq_range();
        let center = if cfg.center_freq < lo {
            lo
        } else if cfg.center_freq > hi {
            hi
        } else {
            cfg.center_freq
        };
        // Guard against an empty dB range.
        let (y_min, y_max) = if cfg.y_min >= cfg.y_max {
            (-100i64, 1000i64)
        } else {
            (cfg.y_min, cfg.y_max)
        };
        let mode = mode_from_str(cfg.radio_mode.as_str());
        let last = mode_from_str(cfg.last_radio_mode.as_str());
        let last = if last == RadioMode::Off {
            RadioMode::WBFM
        } else {
            last
        };
        let squelch = if cfg.squelch_db < SQUELCH_MIN {
            SQUELCH_MIN
        } else if cfg.squelch_db > SQUELCH_MAX {
            SQUELCH_MAX
        } else {
            cfg.squelch_db
        };
        let sample_rate_idx = if cfg.sample_rate_idx < device.sample_rate_options().len() {
            cfg.sample_rate_idx
        } else {
            device.default_sample_rate_idx()
        };
        let gain_idx = if cfg.gain_idx < device.gain_options_tenths().len() {
            cfg.gain_idx
        } else {
            device.default_gain_idx()
        };
        self.device_kind = device;
        self.center_freq = center;
        self.y_min = y_min;
        self.y_max = y_max;
        self.show_overlay = cfg.show_overlay;
        self.radio_mode = mode;
        self.last_radio_mode = last;
        self.squelch_db = squelch;
        self.sample_rate_idx = sample_rate_idx;
        self.agc_enabled = cfg.agc_enabled;
        self.gain_idx = gain_idx;
    }
}

} // verus!
