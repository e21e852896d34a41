use sdrrat::app::{App, AppMode, ConnectionState, MinMaxFocus};
use sdrrat::command::DspCommand;
use sdrrat::device_kind::DeviceKind;
use sdrrat::key::Key;
use sdrrat::radio::{RadioField, RadioMode};
use sdrrat::source::SourceField;

fn press(app: &mut App, keys: &[Key]) {
    for k in keys {
        app.handle_key(*k);
    }
}

#[test]
fn new_app_defaults() {
    let app = App::new();
    assert!(app.running);
    assert_eq!(app.mode, AppMode::Normal);
    assert!(!app.is_connected());
    assert_eq!(app.connection, ConnectionState::Disconnected { last_error: None });
    assert_eq!(app.center_freq, 100_000_000);
    assert_eq!(app.vfo_cursor, 6);
    assert_eq!((app.y_min, app.y_max), (-100, 1000));
    assert_eq!(app.device_kind, DeviceKind::RtlSdr);
    assert_eq!(app.sample_rate_idx, 1);
    assert_eq!(app.gain_idx, 14);
    assert!(app.agc_enabled);
    assert_eq!(app.radio_mode, RadioMode::Off);
    assert_eq!(app.last_radio_mode, RadioMode::WBFM);
    assert_eq!(app.squelch_db, -500);
    assert!(app.show_overlay);
    assert!(app.outbox.is_empty());
    assert_eq!(app.current_sample_rate(), 1_024_000);
    assert_eq!(app.current_gain_tenths(), 254);
    assert!(!app.audio_active());
}

#[test]
fn quit_key_stops_running() {
    let mut app = App::new();
    press(&mut app, &[Key::Char('q')]);
    assert!(!app.running);
}

#[test]
fn overlay_toggle() {
    let mut app = App::new();
    press(&mut app, &[Key::Char('o')]);
    assert!(!app.show_overlay);
    press(&mut app, &[Key::Char('o')]);
    assert!(app.show_overlay);
}

#[test]
fn nudge_frequency_by_a_tenth_of_a_megahertz() {
    let mut app = App::new();
    press(&mut app, &[Key::Right]);
    assert_eq!(app.center_freq, 100_100_000);
    press(&mut app, &[Key::Left, Key::Left]);
    assert_eq!(app.center_freq, 99_900_000);
}

#[test]
fn vfo_editing_and_cancel() {
    let mut app = App::new();
    press(&mut app, &[Key::Right, Key::Char('f')]);
    assert_eq!(app.mode, AppMode::EditingFrequency);
    assert_eq!(app.vfo_freq_snapshot, 100_100_000);
    assert_eq!(app.vfo_step(), 1_000_000);
    press(&mut app, &[Key::Up]);
    assert_eq!(app.center_freq, 101_100_000);
    press(&mut app, &[Key::Left, Key::Up]);
    assert_eq!(app.vfo_cursor, 7);
    assert_eq!(app.center_freq, 111_100_000);
    press(&mut app, &[Key::Right, Key::Char('z')]);
    assert_eq!(app.vfo_cursor, 6);
    assert_eq!(app.center_freq, 111_000_000);
    press(&mut app, &[Key::Esc]);
    assert_eq!(app.mode, AppMode::Normal);
    assert_eq!(app.center_freq, 100_100_000);
}

#[test]
fn vfo_enter_commits() {
    let mut app = App::new();
    press(&mut app, &[Key::Char('f'), Key::Down, Key::Enter]);
    assert_eq!(app.mode, AppMode::Normal);
    assert_eq!(app.center_freq, 99_000_000);
}

#[test]
fn vfo_cursor_stays_on_the_digits() {
    let mut app = App::new();
    press(&mut app, &[Key::Char('f')]);
    for _ in 0..20 {
        press(&mut app, &[Key::Left]);
    }
    assert_eq!(app.vfo_cursor, 9);
    for _ in 0..20 {
        press(&mut app, &[Key::Right]);
    }
    assert_eq!(app.vfo_cursor, 0);
    assert_eq!(app.vfo_step(), 1);
}

#[test]
fn vfo_clamps_to_device_range() {
    let mut app = App::new();
    press(&mut app, &[Key::Char('f'), Key::Left, Key::Left, Key::Down]);
    assert_eq!(app.vfo_cursor, 8);
    assert_eq!(app.center_freq, 24_000_000);
    press(&mut app, &[Key::Left, Key::Up]);
    assert_eq!(app.center_freq, 1_024_000_000);
    press(&mut app, &[Key::Up]);
    assert_eq!(app.center_freq, 1_766_000_000);
}

#[test]
fn set_center_freq_clamped_directly() {
    let mut app = App::new();
    app.set_center_freq_clamped(5);
    assert_eq!(app.center_freq, 24_000_000);
    app.set_center_freq_clamped(u64::MAX);
    assert_eq!(app.center_freq, 1_766_000_000);
    app.set_center_freq_clamped(433_920_000);
    assert_eq!(app.center_freq, 433_920_000);
}

#[test]
fn zero_right_of_cursor() {
    let mut app = App::new();
    app.set_center_freq_clamped(123_456_789);
    app.vfo_cursor = 3;
    app.vfo_zero_right();
    assert_eq!(app.center_freq, 123_456_000);
    app.vfo_cursor = 8;
    app.vfo_zero_right();
    assert_eq!(app.center_freq, 100_000_000);
    app.vfo_cursor = 9;
    app.vfo_zero_right();
    assert_eq!(app.center_freq, 24_000_000);
}

#[test]
fn increment_then_decrement_returns() {
    let mut app = App::new();
    app.vfo_cursor = 4;
    app.vfo_increment();
    assert_eq!(app.center_freq, 100_010_000);
    app.vfo_decrement();
    assert_eq!(app.center_freq, 100_000_000);
}

#[test]
fn db_range_stepping_keeps_order() {
    let mut app = App::new();
    press(&mut app, &[Key::Char('m')]);
    assert_eq!(app.mode, AppMode::EditingMinMax);
    assert_eq!(app.minmax_focus, MinMaxFocus::Min);
    press(&mut app, &[Key::Up]);
    assert_eq!(app.y_min, -50);
    for _ in 0..40 {
        press(&mut app, &[Key::Up]);
    }
    assert_eq!((app.y_min, app.y_max), (950, 1000));
    press(&mut app, &[Key::Tab, Key::Down]);
    assert_eq!(app.minmax_focus, MinMaxFocus::Max);
    assert_eq!((app.y_min, app.y_max), (950, 1000));
    press(&mut app, &[Key::Up, Key::Up]);
    assert_eq!(app.y_max, 1100);
    press(&mut app, &[Key::BackTab, Key::Down]);
    assert_eq!(app.minmax_focus, MinMaxFocus::Min);
    assert_eq!(app.y_min, 900);
    press(&mut app, &[Key::Esc]);
    assert_eq!(app.mode, AppMode::Normal);
    assert_eq!((app.y_min, app.y_max), (-100, 1000));
}

#[test]
fn db_range_enter_commits() {
    let mut app = App::new();
    press(&mut app, &[Key::Char('m'), Key::Down, Key::Enter]);
    assert_eq!(app.mode, AppMode::Normal);
    assert_eq!(app.y_min, -150);
    app.minmax_focus = MinMaxFocus::Max;
    app.minmax_step_down();
    assert_eq!(app.y_max, 950);
}

#[test]
fn mute_toggles_between_off_and_last_mode() {
    let mut app = App::new();
    press(&mut app, &[Key::Char('d')]);
    assert_eq!(app.radio_mode, RadioMode::WBFM);
    assert!(app.audio_active());
    press(&mut app, &[Key::Char('d')]);
    assert_eq!(app.radio_mode, RadioMode::Off);
    assert_eq!(app.last_radio_mode, RadioMode::WBFM);
    app.radio_mode = RadioMode::AM;
    app.toggle_mute();
    assert_eq!(app.radio_mode, RadioMode::Off);
    assert_eq!(app.last_radio_mode, RadioMode::AM);
    app.toggle_mute();
    assert_eq!(app.radio_mode, RadioMode::AM);
}

#[test]
fn radio_popup_cycles_modes_and_squelch() {
    let mut app = App::new();
    press(&mut app, &[Key::Char('r')]);
    assert_eq!(app.mode, AppMode::EditingRadio);
    assert_eq!(app.radio_focus, RadioField::Mode);
    press(&mut app, &[Key::Right]);
    assert_eq!(app.radio_mode, RadioMode::WBFM);
    press(&mut app, &[Key::Right]);
    assert_eq!(app.radio_mode, RadioMode::NBFM);
    assert_eq!(app.last_radio_mode, RadioMode::NBFM);
    press(&mut app, &[Key::Left, Key::Left]);
    assert_eq!(app.radio_mode, RadioMode::Off);
    assert_eq!(app.last_radio_mode, RadioMode::WBFM);
    press(&mut app, &[Key::Left]);
    assert_eq!(app.radio_mode, RadioMode::AM);
    press(&mut app, &[Key::Down, Key::Right]);
    assert_eq!(app.radio_focus, RadioField::Squelch);
    assert_eq!(app.squelch_db, -450);
    for _ in 0..30 {
        press(&mut app, &[Key::Right]);
    }
    assert_eq!(app.squelch_db, 0);
    assert_eq!(app.squelch_fraction(), 1000);
    for _ in 0..30 {
        press(&mut app, &[Key::Left]);
    }
    assert_eq!(app.squelch_db, -1000);
    assert_eq!(app.squelch_fraction(), 0);
    press(&mut app, &[Key::Up, Key::Enter]);
    assert_eq!(app.radio_focus, RadioField::Mode);
    assert_eq!(app.mode, AppMode::Normal);
}

#[test]
fn squelch_fraction_is_in_thousandths() {
    let mut app = App::new();
    assert_eq!(app.squelch_fraction(), 500);
    app.squelch_db = -750;
    assert_eq!(app.squelch_fraction(), 250);
    app.squelch_db = 400;
    assert_eq!(app.squelch_fraction(), 1000);
    app.squelch_db = -2000;
    assert_eq!(app.squelch_fraction(), 0);
}

#[test]
fn help_popup_opens_and_closes() {
    let mut app = App::new();
    press(&mut app, &[Key::Char('h')]);
    assert_eq!(app.mode, AppMode::Help);
    press(&mut app, &[Key::Char('x'), Key::Up]);
    assert_eq!(app.mode, AppMode::Help);
    press(&mut app, &[Key::Char('q')]);
    assert_eq!(app.mode, AppMode::Normal);
    assert!(app.running);
}

#[test]
fn source_device_change_resets_and_clamps() {
    let mut app = App::new();
    press(&mut app, &[Key::Char('s')]);
    assert_eq!(app.mode, AppMode::EditingSource);
    assert_eq!(app.source_focus, SourceField::Device);
    press(&mut app, &[Key::Right]);
    assert_eq!(app.device_kind, DeviceKind::HackRf);
    assert_eq!(app.sample_rate_idx, 0);
    assert_eq!(app.gain_idx, 26);
    assert_eq!(app.source_focus, SourceField::Connect);
    assert!(!app.take_disconnect_request());
    app.set_center_freq_clamped(5_000_000_000);
    assert_eq!(app.center_freq, 5_000_000_000);
    app.source_focus = SourceField::Device;
    press(&mut app, &[Key::Left]);
    assert_eq!(app.device_kind, DeviceKind::RtlSdr);
    assert_eq!(app.center_freq, 1_766_000_000);
    assert_eq!(app.sample_rate_idx, 1);
    assert_eq!(app.gain_idx, 14);
}

#[test]
fn device_change_while_connected_requests_disconnect() {
    let mut app = App::new();
    app.set_connected();
    app.take_commands();
    app.mode = AppMode::EditingSource;
    app.source_focus = SourceField::Device;
    assert_eq!(app.source_cycle(1), None);
    assert!(app.take_disconnect_request());
    assert!(!app.take_disconnect_request());
}

#[test]
fn sample_rate_cycling_wraps() {
    let mut app = App::new();
    press(&mut app, &[Key::Char('s'), Key::Down]);
    assert_eq!(app.source_focus, SourceField::SampleRate);
    press(&mut app, &[Key::Left]);
    assert_eq!(app.sample_rate_idx, 0);
    assert_eq!(app.current_sample_rate(), 250_000);
    press(&mut app, &[Key::Left]);
    assert_eq!(app.sample_rate_idx, 7);
    assert_eq!(app.current_sample_rate(), 2_560_000);
    press(&mut app, &[Key::Right]);
    assert_eq!(app.sample_rate_idx, 0);
}

#[test]
fn gain_mode_and_manual_gain_commands() {
    let mut app = App::new();
    app.set_connected();
    app.take_commands();
    press(&mut app, &[Key::Char('s'), Key::Down, Key::Down]);
    assert_eq!(app.source_focus, SourceField::GainMode);
    press(&mut app, &[Key::Right]);
    assert!(!app.agc_enabled);
    assert_eq!(app.take_commands(), vec![DspCommand::SetManualGain(254)]);
    press(&mut app, &[Key::Down, Key::Right]);
    assert_eq!(app.gain_idx, 15);
    assert_eq!(app.take_commands(), vec![DspCommand::SetManualGain(280)]);
    app.gain_idx = 0;
    press(&mut app, &[Key::Left]);
    assert_eq!(app.gain_idx, 28);
    assert_eq!(app.take_commands(), vec![DspCommand::SetManualGain(496)]);
    assert_eq!(app.current_gain_tenths(), 496);
    press(&mut app, &[Key::Up, Key::Left]);
    assert!(app.agc_enabled);
    assert_eq!(app.take_commands(), vec![DspCommand::SetAgcMode(true)]);
    press(&mut app, &[Key::Down, Key::Right]);
    assert_eq!(app.gain_idx, 28);
    assert!(app.take_commands().is_empty());
}

#[test]
fn connect_row_requests_connection_once() {
    let mut app = App::new();
    press(&mut app, &[Key::Char('s'), Key::Up]);
    assert_eq!(app.source_focus, SourceField::Connect);
    press(&mut app, &[Key::Enter]);
    assert_eq!(app.mode, AppMode::EditingSource);
    assert!(app.take_connect_request());
    assert!(!app.take_connect_request());
    press(&mut app, &[Key::Tab, Key::Enter]);
    assert_eq!(app.mode, AppMode::Normal);
    assert!(!app.take_connect_request());
}

#[test]
fn source_escape_closes() {
    let mut app = App::new();
    press(&mut app, &[Key::Char('s'), Key::BackTab, Key::Esc]);
    assert_eq!(app.source_focus, SourceField::Connect);
    assert_eq!(app.mode, AppMode::Normal);
}

#[test]
fn commands_only_while_connected() {
    let mut app = App::new();
    press(&mut app, &[Key::Right, Key::Char('d')]);
    assert!(app.take_commands().is_empty());
    app.set_connected();
    assert!(app.is_connected());
    assert_eq!(
        app.take_commands(),
        vec![
            DspCommand::TuneFrequency(100_100_000),
            DspCommand::SetRadioMode(1),
            DspCommand::SetSquelchDb(-500),
        ]
    );
    press(&mut app, &[Key::Left, Key::Char('d')]);
    assert_eq!(
        app.take_commands(),
        vec![DspCommand::TuneFrequency(100_000_000), DspCommand::SetRadioMode(0)]
    );
    assert!(app.take_commands().is_empty());
    app.set_disconnected(Some(String::from("boom")));
    assert_eq!(
        app.connection,
        ConnectionState::Disconnected { last_error: Some(String::from("boom")) }
    );
    press(&mut app, &[Key::Right]);
    assert!(app.take_commands().is_empty());
}

#[test]
fn tune_command_carries_full_frequency() {
    let mut app = App::new();
    app.device_kind = DeviceKind::HackRf;
    app.sample_rate_idx = 0;
    app.set_center_freq_clamped(5_000_000_000);
    app.set_connected();
    let cmds = app.take_commands();
    assert_eq!(cmds[0], DspCommand::TuneFrequency(5_000_000_000));
}

#[test]
fn escape_in_radio_mode_with_send() {
    let mut app = App::new();
    app.set_connected();
    app.take_commands();
    press(&mut app, &[Key::Char('r'), Key::Down, Key::Right, Key::Esc]);
    assert_eq!(app.take_commands(), vec![DspCommand::SetSquelchDb(-450)]);
    assert_eq!(app.mode, AppMode::Normal);
}

#[test]
fn invariant_holds_across_key_presses() {
    let mut app = App::new();
    assert!(app.invariant_holds());
    let keys = [
        Key::Char('f'), Key::Left, Key::Left, Key::Left, Key::Up, Key::Up, Key::Char('z'),
        Key::Esc, Key::Char('s'), Key::Right, Key::Down, Key::Left, Key::Down, Key::Right,
        Key::Down, Key::Left, Key::Esc, Key::Char('m'), Key::Up, Key::Up, Key::Tab, Key::Down,
        Key::Esc, Key::Char('r'), Key::Left, Key::Down, Key::Left, Key::Esc, Key::Char('d'),
        Key::Right, Key::Other,
    ];
    for k in keys {
        app.handle_key(k);
        assert!(app.invariant_holds());
    }
}

#[test]
fn invariant_detects_broken_states() {
    let mut app = App::new();
    app.y_min = 1000;
    assert!(!app.invariant_holds());
    let mut app = App::new();
    app.center_freq = 1_000;
    assert!(!app.invariant_holds());
    let mut app = App::new();
    app.last_radio_mode = RadioMode::Off;
    assert!(!app.invariant_holds());
    let mut app = App::new();
    app.mode = AppMode::EditingFrequency;
    assert!(!app.invariant_holds());
    app.vfo_freq_snapshot = app.center_freq;
    assert!(app.invariant_holds());
}

#[test]
fn space_starts_and_stops_the_stream() {
    let mut app = App::new();
    press(&mut app, &[Key::Char(' ')]);
    assert!(app.take_connect_request());
    assert!(!app.take_disconnect_request());
    app.set_connected();
    press(&mut app, &[Key::Char(' ')]);
    assert!(app.take_disconnect_request());
    assert!(!app.take_connect_request());
    assert_eq!(app.mode, AppMode::Normal);
}

#[test]
fn clamp_moves_only_the_focused_bound() {
    let mut app = App::new();
    app.y_min = 400;
    app.y_max = 440;
    app.minmax_focus = MinMaxFocus::Min;
    app.minmax_step_up();
    assert_eq!((app.y_min, app.y_max), (390, 440));
    app.minmax_focus = MinMaxFocus::Max;
    app.minmax_step_down();
    assert_eq!((app.y_min, app.y_max), (390, 440));
    app.minmax_step_up();
    assert_eq!((app.y_min, app.y_max), (390, 490));
}
