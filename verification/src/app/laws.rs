//! Properties of the application state machine that span operations.

use vstd::prelude::*;

use super::model::{freq_in_range, min_u64, sat_add_u64, sat_sub_u64};
use super::persist::{mode_from_chars, ConfigModel};
use super::vfo::lemma_pow10_monotone;
use super::{AppMode, AppState, MinMaxFocus, DB_STEP, VFO_MAX_HZ};
use crate::command::DspCommand;
use crate::device_kind::lemma_device_next_prev_inverse;
use crate::key::Key;
use crate::radio::{RadioField, RadioMode};
use crate::source::SourceField;

verus! {

/// A freshly started application is well formed.
pub proof fn lemma_initial_wf()
    ensures
        AppState::initial().wf(),
{
}

/// Retuning lands inside the device's range and the VFO widget's, keeps the
/// state well formed, and changes nothing but the frequency and the queue.
pub proof fn lemma_set_center_freq_clamped(s: AppState, freq: u64)
    requires
        s.wf(),
    ensures
        freq_in_range(s.device_kind, s.set_center_freq_clamped(freq).center_freq),
        s.set_center_freq_clamped(freq).center_freq <= VFO_MAX_HZ,
        s.set_center_freq_clamped(freq).wf(),
        (s.device_kind.spec_freq_range().0 <= freq <= s.device_kind.spec_freq_range().1
            && freq <= VFO_MAX_HZ) ==> s.set_center_freq_clamped(freq).center_freq == freq,
{
}

proof fn lemma_handle_freq_key_wf(s: AppState, key: Key)
    requires
        s.wf(),
        s.mode == AppMode::EditingFrequency,
    ensures
        s.handle_freq_key(key).wf(),
{
    match key {
        Key::Up => lemma_set_center_freq_clamped(s, sat_add_u64(s.center_freq, s.vfo_step())),
        Key::Down => lemma_set_center_freq_clamped(s, sat_sub_u64(s.center_freq, s.vfo_step())),
        Key::Char(c) => {
            if c == 'z' {
                let step = s.vfo_step();
                lemma_set_center_freq_clamped(s, (s.center_freq / step * step) as u64);
            }
        },
        _ => {},
    }
}

/// After any dB-range step the minimum stays below the maximum, at least
/// one step apart unless a bound saturated at the ends of `i64`.
pub proof fn lemma_minmax_steps_keep_order(s: AppState)
    requires
        s.y_min < s.y_max,
    ensures
        s.minmax_step_up().y_min < s.minmax_step_up().y_max,
        s.minmax_step_down().y_min < s.minmax_step_down().y_max,
        (i64::MIN + 2 * DB_STEP <= s.y_min && s.y_max <= i64::MAX - 2 * DB_STEP) ==> {
            &&& s.minmax_step_up().y_max - s.minmax_step_up().y_min >= DB_STEP
            &&& s.minmax_step_down().y_max - s.minmax_step_down().y_min >= DB_STEP
        },
{
}

/// Keeping the bounds apart leaves the minimum at least one step below the
/// maximum. Bounds already that far apart are left alone; otherwise only the
/// focused bound moves, to one step from the other. The moved bound must
/// fit in `i64` (else it saturates and the gap can be short).
pub proof fn lemma_clamp_minmax(s: AppState)
    requires
        s.y_min >= s.y_max - DB_STEP ==> {
            &&& s.minmax_focus == MinMaxFocus::Min ==> s.y_max - DB_STEP >= i64::MIN
            &&& s.minmax_focus == MinMaxFocus::Max ==> s.y_min + DB_STEP <= i64::MAX
        },
    ensures
        s.clamp_minmax().y_min <= s.clamp_minmax().y_max - DB_STEP,
        s.y_min < s.y_max - DB_STEP ==> s.clamp_minmax() == s,
        (s.y_min >= s.y_max - DB_STEP && s.minmax_focus == MinMaxFocus::Min) ==> s.clamp_minmax()
            == (AppState { y_min: (s.y_max - DB_STEP) as i64, ..s }),
        (s.y_min >= s.y_max - DB_STEP && s.minmax_focus == MinMaxFocus::Max) ==> s.clamp_minmax()
            == (AppState { y_max: (s.y_min + DB_STEP) as i64, ..s }),
{
}

proof fn lemma_handle_minmax_key_wf(s: AppState, key: Key)
    requires
        s.wf(),
        s.mode == AppMode::EditingMinMax,
    ensures
        s.handle_minmax_key(key).wf(),
{
    lemma_minmax_steps_keep_order(s);
}

/// Mode cycling and squelch stepping keep the state well formed; the
/// squelch stays within -100..0 dB.
proof fn lemma_handle_radio_key_wf(s: AppState, key: Key)
    requires
        s.wf(),
    ensures
        s.handle_radio_key(key).wf(),
{
}

#[verifier::spinoff_prover]
proof fn lemma_source_cycle_wf(s: AppState, delta: i32)
    requires
        s.wf(),
        s.cycle_fits(delta),
        s.mode != AppMode::EditingFrequency,
    ensures
        s.source_cycle_and_send(delta).wf(),
{
    let len_sr = s.device_kind.sample_rate_count() as int;
    let len_g = s.device_kind.gain_count() as int;
    assert(0 <= (s.sample_rate_idx + delta) % len_sr < len_sr);
    assert(0 <= (s.gain_idx + delta) % len_g < len_g);
    match s.source_focus {
        SourceField::Device => {
            let next = s.cycled_device(delta);
            assert(s.cycle_device(delta).0.wf());
        },
        SourceField::SampleRate => {
            assert(s.cycle_sample_rate(delta).0.wf());
        },
        SourceField::GainMode => {
            assert(s.toggle_gain_mode().0.wf());
        },
        SourceField::ManualGain => {
            assert(s.cycle_manual_gain(delta).0.wf());
        },
        SourceField::Connect => {},
    }
}

proof fn lemma_handle_source_key_wf(s: AppState, key: Key)
    requires
        s.wf(),
        s.key_fits(key),
        s.mode == AppMode::EditingSource,
    ensures
        s.handle_source_key(key).wf(),
{
    match key {
        Key::Right => lemma_source_cycle_wf(s, 1),
        Key::Left => lemma_source_cycle_wf(s, -1i32),
        _ => {},
    }
}

proof fn lemma_handle_normal_key_wf(s: AppState, key: Key)
    requires
        s.wf(),
        s.mode == AppMode::Normal,
    ensures
        s.handle_normal_key(key).wf(),
{
    match key {
        Key::Right => lemma_set_center_freq_clamped(s, sat_add_u64(s.center_freq, 100_000)),
        Key::Left => lemma_set_center_freq_clamped(s, sat_sub_u64(s.center_freq, 100_000)),
        _ => {},
    }
}

/// In a well-formed state no key can overflow the index arithmetic.
pub proof fn lemma_wf_key_fits(s: AppState, key: Key)
    requires
        s.wf(),
    ensures
        s.key_fits(key),
{
}

/// Every key press keeps the state well formed: the frequency stays tunable
/// on the selected device, the dB range non-empty, the squelch in range,
/// the option indices valid and the un-mute mode active.
#[verifier::spinoff_prover]
pub proof fn lemma_handle_key_wf(s: AppState, key: Key)
    requires
        s.wf(),
    ensures
        s.handle_key(key).wf(),
{
    lemma_wf_key_fits(s, key);
    match s.mode {
        AppMode::Normal => lemma_handle_normal_key_wf(s, key),
        AppMode::EditingFrequency => lemma_handle_freq_key_wf(s, key),
        AppMode::EditingMinMax => lemma_handle_minmax_key_wf(s, key),
        AppMode::EditingSource => lemma_handle_source_key_wf(s, key),
        AppMode::EditingRadio => lemma_handle_radio_key_wf(s, key),
        AppMode::Help => {},
    }
}

/// A connect request is reported exactly once: the first take after a
/// request answers `true`, the next one `false`. The same holds of
/// disconnect requests.
pub proof fn lemma_requests_taken_once(s: AppState)
    ensures
        s.request_connect().take_connect_request().0,
        !s.request_connect().take_connect_request().1.take_connect_request().0,
        s.request_disconnect().take_disconnect_request().0,
        !s.request_disconnect().take_disconnect_request().1.take_disconnect_request().0,
{
}

/// Pressing `d` twice brings back the radio mode it started from; each
/// press switches audio between off and on.
pub proof fn lemma_toggle_mute_twice(s: AppState)
    requires
        s.wf(),
    ensures
        (s.toggle_mute().radio_mode == RadioMode::Off) == (s.radio_mode != RadioMode::Off),
        s.toggle_mute().toggle_mute().radio_mode == s.radio_mode,
        s.toggle_mute().wf(),
{
}

/// Cancelling the VFO editor restores the frequency from when it was
/// opened: `f` records the current frequency, no key but `Esc` changes
/// that record while the editor is open, and `Esc` tunes back to it and
/// closes the editor.
pub proof fn lemma_vfo_cancel_restores(s: AppState, key: Key)
    ensures
        s.mode == AppMode::Normal ==> {
            &&& s.handle_key(Key::Char('f')).mode == AppMode::EditingFrequency
            &&& s.handle_key(Key::Char('f')).vfo_freq_snapshot == s.center_freq
        },
        s.mode == AppMode::EditingFrequency ==> {
            &&& s.handle_key(key).vfo_freq_snapshot == s.vfo_freq_snapshot
            &&& (key != Key::Esc && key != Key::Enter) ==> s.handle_key(key).mode
                == AppMode::EditingFrequency
        },
        s.mode == AppMode::EditingFrequency ==> {
            &&& s.handle_key(Key::Esc).center_freq == s.vfo_freq_snapshot
            &&& s.handle_key(Key::Esc).mode == AppMode::Normal
        },
{
}

/// Cancelling the dB-range editor restores the bounds from when it was
/// opened, in the same way.
pub proof fn lemma_minmax_cancel_restores(s: AppState, key: Key)
    ensures
        s.mode == AppMode::Normal ==> {
            &&& s.handle_key(Key::Char('m')).mode == AppMode::EditingMinMax
            &&& s.handle_key(Key::Char('m')).y_min_snapshot == s.y_min
            &&& s.handle_key(Key::Char('m')).y_max_snapshot == s.y_max
        },
        s.mode == AppMode::EditingMinMax ==> {
            &&& s.handle_key(key).y_min_snapshot == s.y_min_snapshot
            &&& s.handle_key(key).y_max_snapshot == s.y_max_snapshot
            &&& (key != Key::Esc && key != Key::Enter) ==> s.handle_key(key).mode
                == AppMode::EditingMinMax
        },
        s.mode == AppMode::EditingMinMax ==> {
            &&& s.handle_key(Key::Esc).y_min == s.y_min_snapshot
            &&& s.handle_key(Key::Esc).y_max == s.y_max_snapshot
            &&& s.handle_key(Key::Esc).mode == AppMode::Normal
        },
{
}

/// `t` holds the queue of `self` with zero or more commands appended,
/// none while disconnected, and the same connection state.
pub open spec fn appends_to(t: AppState, s: AppState) -> bool {
    &&& t.outbox.len() >= s.outbox.len()
    &&& t.outbox.subrange(0, s.outbox.len() as int) == s.outbox
    &&& t.connection == s.connection
    &&& !s.is_connected() ==> t.outbox == s.outbox
}

proof fn lemma_appends_refl(s: AppState, t: AppState)
    requires
        t.outbox == s.outbox,
        t.connection == s.connection,
    ensures
        appends_to(t, s),
{
    assert(s.outbox.subrange(0, s.outbox.len() as int) =~= s.outbox);
}

proof fn lemma_appends_trans(a: AppState, b: AppState, c: AppState)
    requires
        appends_to(b, a),
        appends_to(c, b),
    ensures
        appends_to(c, a),
{
    assert(c.outbox.subrange(0, a.outbox.len() as int) =~= b.outbox.subrange(
        0,
        a.outbox.len() as int,
    ));
}

proof fn lemma_send_appends(s: AppState, cmd: DspCommand)
    ensures
        appends_to(s.send(cmd), s),
{
    assert(s.outbox.push(cmd).subrange(0, s.outbox.len() as int) =~= s.outbox);
    assert(s.outbox.subrange(0, s.outbox.len() as int) =~= s.outbox);
}

proof fn lemma_retune_appends(s: AppState, freq: u64)
    ensures
        appends_to(s.set_center_freq_clamped(freq), s),
{
    let (lo, hi) = s.device_kind.spec_freq_range();
    let u = AppState { center_freq: super::model::clamp_u64(freq, lo, min_u64(hi, VFO_MAX_HZ)), ..s };
    lemma_appends_refl(s, u);
    lemma_send_appends(u, DspCommand::TuneFrequency(u.center_freq));
    lemma_appends_trans(s, u, s.set_center_freq_clamped(freq));
}

proof fn lemma_set_mode_appends(s: AppState, u: AppState, m: RadioMode)
    requires
        appends_to(u, s),
    ensures
        appends_to(u.set_radio_mode(m), s),
{
    let v = AppState { radio_mode: m, ..u };
    lemma_appends_refl(u, v);
    lemma_send_appends(v, DspCommand::SetRadioMode(m.spec_code()));
    lemma_appends_trans(u, v, u.set_radio_mode(m));
    lemma_appends_trans(s, u, u.set_radio_mode(m));
}

proof fn lemma_toggle_mute_appends(s: AppState)
    ensures
        appends_to(s.toggle_mute(), s),
{
    lemma_appends_refl(s, s);
    if s.radio_mode != RadioMode::Off {
        let u = AppState { last_radio_mode: s.radio_mode, ..s };
        lemma_appends_refl(s, u);
        lemma_set_mode_appends(s, u, RadioMode::Off);
    } else {
        lemma_set_mode_appends(s, s, s.last_radio_mode);
    }
}

proof fn lemma_radio_cycle_appends(s: AppState, delta: i32)
    ensures
        appends_to(s.radio_cycle(delta), s),
{
    match s.radio_focus {
        RadioField::Mode => {
            let next = s.cycled_mode(delta);
            let u = if next != RadioMode::Off {
                AppState { last_radio_mode: next, ..s }
            } else {
                s
            };
            lemma_appends_refl(s, u);
            lemma_set_mode_appends(s, u, next);
        },
        RadioField::Squelch => {
            let t = s.radio_cycle(delta);
            let u = AppState { squelch_db: t.squelch_db, ..s };
            lemma_appends_refl(s, u);
            lemma_send_appends(u, DspCommand::SetSquelchDb(t.squelch_db));
            lemma_appends_trans(s, u, t);
        },
    }
}

proof fn lemma_source_cycle_appends(s: AppState, delta: i32)
    ensures
        appends_to(s.source_cycle_and_send(delta), s),
{
    let (u, cmd) = s.source_cycle(delta);
    assert(u.outbox == s.outbox && u.connection == s.connection);
    lemma_appends_refl(s, u);
    match cmd {
        Some(c) => {
            lemma_send_appends(u, c);
            lemma_appends_trans(s, u, u.send(c));
        },
        None => {},
    }
}

proof fn lemma_normal_key_appends(s: AppState, key: Key)
    ensures
        appends_to(s.handle_normal_key(key), s),
{
    let t = s.handle_normal_key(key);
    match key {
        Key::Char(c) => {
            if c == 'd' {
                lemma_toggle_mute_appends(s);
            } else {
                lemma_appends_refl(s, t);
            }
        },
        Key::Right => lemma_retune_appends(s, sat_add_u64(s.center_freq, 100_000)),
        Key::Left => lemma_retune_appends(s, sat_sub_u64(s.center_freq, 100_000)),
        _ => lemma_appends_refl(s, t),
    }
}

proof fn lemma_freq_key_appends(s: AppState, key: Key)
    ensures
        appends_to(s.handle_freq_key(key), s),
{
    let t = s.handle_freq_key(key);
    match key {
        Key::Esc => {
            let u = AppState { center_freq: s.vfo_freq_snapshot, ..s };
            lemma_appends_refl(s, u);
            lemma_send_appends(u, DspCommand::TuneFrequency(u.center_freq));
            lemma_appends_trans(s, u, u.send_freq());
            lemma_appends_refl(u.send_freq(), t);
            lemma_appends_trans(s, u.send_freq(), t);
        },
        Key::Up => lemma_retune_appends(s, sat_add_u64(s.center_freq, s.vfo_step())),
        Key::Down => lemma_retune_appends(s, sat_sub_u64(s.center_freq, s.vfo_step())),
        Key::Char(c) => {
            if c == 'z' {
                let step = s.vfo_step();
                lemma_retune_appends(s, (s.center_freq / step * step) as u64);
            } else {
                lemma_appends_refl(s, t);
            }
        },
        _ => lemma_appends_refl(s, t),
    }
}

proof fn lemma_source_key_appends(s: AppState, key: Key)
    ensures
        appends_to(s.handle_source_key(key), s),
{
    let t = s.handle_source_key(key);
    match key {
        Key::Right => lemma_source_cycle_appends(s, 1),
        Key::Left => lemma_source_cycle_appends(s, -1i32),
        _ => lemma_appends_refl(s, t),
    }
}

proof fn lemma_radio_key_appends(s: AppState, key: Key)
    ensures
        appends_to(s.handle_radio_key(key), s),
{
    let t = s.handle_radio_key(key);
    match key {
        Key::Right => lemma_radio_cycle_appends(s, 1),
        Key::Left => lemma_radio_cycle_appends(s, -1i32),
        _ => lemma_appends_refl(s, t),
    }
}

/// While disconnected no command is queued, whatever key is pressed; while
/// connected, commands are only ever appended; and no key changes the
/// connection state.
#[verifier::spinoff_prover]
pub proof fn lemma_commands_only_while_connected(s: AppState, key: Key)
    ensures
        appends_to(s.handle_key(key), s),
{
    let t = s.handle_key(key);
    match s.mode {
        AppMode::Normal => lemma_normal_key_appends(s, key),
        AppMode::EditingFrequency => lemma_freq_key_appends(s, key),
        AppMode::EditingMinMax => lemma_appends_refl(s, t),
        AppMode::EditingSource => lemma_source_key_appends(s, key),
        AppMode::EditingRadio => lemma_radio_key_appends(s, key),
        AppMode::Help => lemma_appends_refl(s, t),
    }
}

/// Every mode reads back as itself from the name it is saved under.
pub proof fn lemma_mode_name_round_trip(m: RadioMode)
    ensures
        mode_from_chars(m.spec_label()) == m,
{
    reveal_strlit("Off");
    reveal_strlit("WBFM");
    reveal_strlit("NBFM");
    reveal_strlit("AM");
    assert("Off"@.len() == 3 && "AM"@.len() == 2 && "WBFM"@.len() == 4 && "NBFM"@.len() == 4);
    assert("WBFM"@[0] == 'W' && "NBFM"@[0] == 'N');
}

/// Saving and loading the settings changes nothing: applying the settings
/// saved from a well-formed state gives that state back.
#[verifier::spinoff_prover]
pub proof fn lemma_persist_round_trip(s: AppState)
    requires
        s.wf(),
    ensures
        s.apply_persisted(s.settings()) == s,
{
    lemma_mode_name_round_trip(s.radio_mode);
    lemma_mode_name_round_trip(s.last_radio_mode);
}

/// Any loaded configuration, however corrupt, leaves a well-formed state
/// (outside the VFO editor, whose cancel snapshot belongs to the device
/// that was selected when it opened).
#[verifier::spinoff_prover]
pub proof fn lemma_apply_persisted_wf(s: AppState, cfg: ConfigModel)
    requires
        s.wf(),
        s.mode != AppMode::EditingFrequency,
    ensures
        s.apply_persisted(cfg).wf(),
{
}

/// Tuning one cursor digit up and back down returns to the starting
/// frequency when neither step hits a range limit.
pub proof fn lemma_vfo_increment_decrement(s: AppState)
    requires
        s.wf(),
        s.center_freq + s.vfo_step() <= min_u64(s.device_kind.spec_freq_range().1, VFO_MAX_HZ),
    ensures
        s.vfo_increment().vfo_decrement().center_freq == s.center_freq,
        s.vfo_decrement().center_freq <= s.center_freq,
{
    lemma_pow10_monotone(0, s.vfo_cursor as nat);
    lemma_pow10_monotone(s.vfo_cursor as nat, 19);
    super::vfo::lemma_pow10_19();
}

/// Zeroing right of the cursor leaves a multiple of the cursor's place
/// value (unless that falls below the device's range and is clamped up).
pub proof fn lemma_vfo_zero_right(s: AppState)
    requires
        s.wf(),
    ensures
        s.vfo_zero_right().center_freq <= s.center_freq,
        s.vfo_zero_right().center_freq == s.center_freq - s.center_freq % s.vfo_step() || s.vfo_zero_right().center_freq == s.device_kind.spec_freq_range().0,
        s.vfo_zero_right().center_freq >= s.device_kind.spec_freq_range().0,
{
    lemma_pow10_monotone(0, s.vfo_cursor as nat);
    lemma_pow10_monotone(s.vfo_cursor as nat, 19);
    super::vfo::lemma_pow10_19();
    let step = s.vfo_step() as int;
    let c = s.center_freq as int;
    assert(c / step * step == c - c % step) by (nonlinear_arith)
        requires
            step > 0,
    ;
    assert(c - c % step <= c) by (nonlinear_arith)
        requires
            step > 0,
    ;
}

/// Cycling the radio mode right and then left (or left and then right)
/// returns to the starting mode.
pub proof fn lemma_radio_cycle_inverse(s: AppState)
    requires
        s.radio_focus == RadioField::Mode,
    ensures
        s.radio_cycle(1).radio_cycle(-1i32).radio_mode == s.radio_mode,
        s.radio_cycle(-1i32).radio_cycle(1).radio_mode == s.radio_mode,
{
}

/// Wrapping one step forward and one step back (in either order) returns
/// to the starting index.
proof fn lemma_wrap_index_inverse(idx: usize, len: nat)
    requires
        0 < len <= 1000,
        idx < len,
    ensures
        AppState::wrap_index(AppState::wrap_index(idx, 1, len), -1i32, len) == idx,
        AppState::wrap_index(AppState::wrap_index(idx, -1i32, len), 1, len) == idx,
{
    let n = len as int;
    let i = idx as int;
    if i + 1 < n {
        vstd::arithmetic::div_mod::lemma_small_mod((i + 1) as nat, len);
        vstd::arithmetic::div_mod::lemma_small_mod(i as nat, len);
    } else {
        assert((i + 1) % n == 0) by {
            vstd::arithmetic::div_mod::lemma_mod_self_0(n);
        }
        assert((0int - 1) % n == n - 1) by (nonlinear_arith)
            requires
                n > 0,
        ;
    }
    if i > 0 {
        vstd::arithmetic::div_mod::lemma_small_mod((i - 1) as nat, len);
        vstd::arithmetic::div_mod::lemma_small_mod(i as nat, len);
    } else {
        assert((0int - 1) % n == n - 1) by (nonlinear_arith)
            requires
                n > 0,
        ;
        assert((n - 1 + 1) % n == 0) by {
            vstd::arithmetic::div_mod::lemma_mod_self_0(n);
        }
    }
}

/// Cycling the device lands on the neighbouring device in the direction of
/// `delta`.
proof fn lemma_cycle_device_kind(s: AppState, delta: i32)
    ensures
        s.cycle_device(delta).0.device_kind == s.cycled_device(delta),
{
}

/// In the Source popup, cycling the device right and then left (or left and
/// then right) comes back to the starting device.
pub proof fn lemma_device_cycle_inverse(s: AppState)
    requires
        s.wf(),
    ensures
        s.cycle_device(1).0.cycle_device(-1i32).0.device_kind == s.device_kind,
        s.cycle_device(-1i32).0.cycle_device(1).0.device_kind == s.device_kind,
{
    lemma_cycle_device_kind(s, 1);
    lemma_cycle_device_kind(s, -1i32);
    lemma_cycle_device_kind(s.cycle_device(1).0, -1i32);
    lemma_cycle_device_kind(s.cycle_device(-1i32).0, 1);
    lemma_device_next_prev_inverse(s.device_kind);
}

/// In the Source popup, cycling the sample rate or the manual gain right and
/// then left (or left and then right) comes back to the starting value.
pub proof fn lemma_source_cycle_inverse(s: AppState)
    requires
        s.wf(),
    ensures
        s.source_focus == SourceField::SampleRate ==> {
            &&& s.source_cycle(1).0.source_cycle(-1i32).0.sample_rate_idx == s.sample_rate_idx
            &&& s.source_cycle(-1i32).0.source_cycle(1).0.sample_rate_idx == s.sample_rate_idx
        },
        (s.source_focus == SourceField::ManualGain && !s.agc_enabled) ==> {
            &&& s.source_cycle(1).0.source_cycle(-1i32).0.gain_idx == s.gain_idx
            &&& s.source_cycle(-1i32).0.source_cycle(1).0.gain_idx == s.gain_idx
        },
{
    lemma_wrap_index_inverse(s.sample_rate_idx, s.device_kind.sample_rate_count());
    lemma_wrap_index_inverse(s.gain_idx, s.device_kind.gain_count());
}

/// Connecting pushes the frequency, the radio mode and the squelch to the
/// new DSP thread, in that order.
pub proof fn lemma_set_connected_commands(s: AppState)
    ensures
        s.set_connected().is_connected(),
        s.set_connected().outbox == s.outbox + seq![
            DspCommand::TuneFrequency(s.center_freq),
            DspCommand::SetRadioMode(s.radio_mode.spec_code()),
            DspCommand::SetSquelchDb(s.squelch_db),
        ],
{
    assert(s.set_connected().outbox =~= s.outbox + seq![
        DspCommand::TuneFrequency(s.center_freq),
        DspCommand::SetRadioMode(s.radio_mode.spec_code()),
        DspCommand::SetSquelchDb(s.squelch_db),
    ]);
}

} // verus!
