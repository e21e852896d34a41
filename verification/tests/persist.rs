use sdrrat::app::persist::{mode_from_str, mode_to_str, PersistedConfig};
use sdrrat::app::{App, AppMode};
use sdrrat::device_kind::DeviceKind;
use sdrrat::key::Key;
use sdrrat::radio::RadioMode;

#[test]
fn default_config() {
    let cfg = PersistedConfig::default();
    assert_eq!(cfg.device_kind, DeviceKind::RtlSdr);
    assert_eq!(cfg.center_freq, 100_000_000);
    assert_eq!((cfg.y_min, cfg.y_max), (-100, 1000));
    assert!(cfg.show_overlay);
    assert_eq!(cfg.radio_mode, "Off");
    assert_eq!(cfg.last_radio_mode, "WBFM");
    assert_eq!(cfg.squelch_db, -500);
    assert_eq!(cfg.sample_rate_idx, 1);
    assert!(cfg.agc_enabled);
    assert_eq!(cfg.gain_idx, 14);
}

#[test]
fn mode_names() {
    for m in [RadioMode::Off, RadioMode::WBFM, RadioMode::NBFM, RadioMode::AM] {
        assert_eq!(mode_from_str(mode_to_str(m)), m);
    }
    assert_eq!(mode_to_str(RadioMode::NBFM), "NBFM");
    assert_eq!(mode_from_str("AM"), RadioMode::AM);
    assert_eq!(mode_from_str("nbfm"), RadioMode::Off);
    assert_eq!(mode_from_str(""), RadioMode::Off);
    assert_eq!(mode_from_str("WBFM "), RadioMode::Off);
}

#[test]
fn saved_settings_of_an_app() {
    let mut app = App::new();
    app.handle_key(Key::Char('d'));
    app.handle_key(Key::Right);
    let cfg = PersistedConfig::from_app(&app);
    assert_eq!(cfg.radio_mode, "WBFM");
    assert_eq!(cfg.last_radio_mode, "WBFM");
    assert_eq!(cfg.center_freq, 100_100_000);
}

#[test]
fn corrupt_config_is_validated() {
    let cfg = PersistedConfig {
        device_kind: DeviceKind::HackRf,
        center_freq: 0,
        y_min: 500,
        y_max: 500,
        show_overlay: false,
        radio_mode: String::from("FM"),
        last_radio_mode: String::from("Off"),
        squelch_db: 200,
        sample_rate_idx: 99,
        agc_enabled: false,
        gain_idx: 99,
    };
    let mut app = App::new();
    app.apply_persisted(cfg);
    assert_eq!(app.device_kind, DeviceKind::HackRf);
    assert_eq!(app.center_freq, 1_000_000);
    assert_eq!((app.y_min, app.y_max), (-100, 1000));
    assert!(!app.show_overlay);
    assert_eq!(app.radio_mode, RadioMode::Off);
    assert_eq!(app.last_radio_mode, RadioMode::WBFM);
    assert_eq!(app.squelch_db, 0);
    assert_eq!(app.sample_rate_idx, 0);
    assert!(!app.agc_enabled);
    assert_eq!(app.gain_idx, 26);
    assert_eq!(app.mode, AppMode::Normal);
}

#[test]
fn valid_config_is_taken_as_is() {
    let cfg = PersistedConfig {
        device_kind: DeviceKind::RtlSdr,
        center_freq: 3_000_000_000,
        y_min: -400,
        y_max: 200,
        show_overlay: true,
        radio_mode: String::from("NBFM"),
        last_radio_mode: String::from("AM"),
        squelch_db: -1300,
        sample_rate_idx: 7,
        agc_enabled: true,
        gain_idx: 3,
    };
    let mut app = App::new();
    app.apply_persisted(cfg);
    assert_eq!(app.center_freq, 1_766_000_000);
    assert_eq!((app.y_min, app.y_max), (-400, 200));
    assert_eq!(app.radio_mode, RadioMode::NBFM);
    assert_eq!(app.last_radio_mode, RadioMode::AM);
    assert_eq!(app.squelch_db, -1000);
    assert_eq!(app.sample_rate_idx, 7);
    assert_eq!(app.gain_idx, 3);
}

#[test]
fn save_then_load_round_trip() {
    let mut app = App::new();
    for k in [
        Key::Char('s'),
        Key::Right,
        Key::Esc,
        Key::Char('r'),
        Key::Right,
        Key::Right,
        Key::Down,
        Key::Left,
        Key::Esc,
        Key::Char('m'),
        Key::Down,
        Key::Enter,
    ] {
        app.handle_key(k);
    }
    let cfg = PersistedConfig::from_app(&app);
    let mut loaded = App::new();
    loaded.apply_persisted(cfg);
    assert_eq!(loaded.device_kind, app.device_kind);
    assert_eq!(loaded.center_freq, app.center_freq);
    assert_eq!((loaded.y_min, loaded.y_max), (app.y_min, app.y_max));
    assert_eq!(loaded.radio_mode, RadioMode::NBFM);
    assert_eq!(loaded.radio_mode, app.radio_mode);
    assert_eq!(loaded.last_radio_mode, app.last_radio_mode);
    assert_eq!(loaded.squelch_db, -550);
    assert_eq!(loaded.squelch_db, app.squelch_db);
    assert_eq!(loaded.sample_rate_idx, app.sample_rate_idx);
    assert_eq!(loaded.gain_idx, app.gain_idx);
    assert_eq!(loaded.agc_enabled, app.agc_enabled);
    assert_eq!(loaded.show_overlay, app.show_overlay);
}

#[test]
fn half_db_settings_survive_loading() {
    let mut cfg = PersistedConfig::from_app(&App::new());
    cfg.y_min = -125;
    cfg.y_max = 875;
    cfg.squelch_db = -425;
    let mut app = App::new();
    app.apply_persisted(cfg);
    assert_eq!((app.y_min, app.y_max), (-125, 875));
    assert_eq!(app.squelch_db, -425);
    assert!(app.invariant_holds());
}
