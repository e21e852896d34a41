//! What each key does to the tuned frequency, the radio mode, the dB-range
//! focus and the commands owed to the DSP thread, stated over the state
//! before and after the key.

use vstd::prelude::*;

use super::model::pow10;
use super::{AppMode, AppState, MinMaxFocus};
use crate::command::DspCommand;
use crate::key::Key;
use crate::radio::{RadioField, RadioMode};
use crate::source::SourceField;

verus! {

/// `f` brought into `[lo, hi]`.
pub open spec fn into_range(f: int, lo: int, hi: int) -> int {
    if f < lo {
        lo
    } else if f > hi {
        hi
    } else {
        f
    }
}

/// The highest frequency `s` can tune to: the device's top, or the largest
/// that the ten-digit VFO shows, whichever is lower.
pub open spec fn tunable_top(s: AppState) -> int {
    let hi = s.device_kind.spec_freq_range().1;
    if hi < 9_999_999_999 {
        hi as int
    } else {
        9_999_999_999
    }
}

/// The command queue of `s` after handing `cmd` to the DSP thread: `cmd`
/// appended while connected, nothing while disconnected.
pub open spec fn queue_after(s: AppState, cmd: DspCommand) -> Seq<DspCommand> {
    if s.connection is Connected {
        s.outbox.push(cmd)
    } else {
        s.outbox
    }
}

/// `t` is `s` retuned towards `f`: the frequency is `f` brought into the
/// device's range (and the VFO's), the new frequency is sent to the DSP
/// thread while connected, and nothing else changes.
pub open spec fn retuned_towards(s: AppState, t: AppState, f: int) -> bool {
    &&& t.center_freq == into_range(f, s.device_kind.spec_freq_range().0 as int, tunable_top(s))
    &&& t.outbox == queue_after(s, DspCommand::TuneFrequency(t.center_freq))
    &&& t == (AppState { center_freq: t.center_freq, outbox: t.outbox, ..s })
}

/// Switching the device in the Source popup selects the neighbouring device
/// with its default sample rate and gain, keeps the frequency where the new
/// device can tune it (else moves it to the nearer end of the new range),
/// sends nothing, asks for a disconnect while connected, and puts the focus
/// on Connect.
pub proof fn lemma_device_switch_clamps_frequency(s: AppState, key: Key)
    requires
        s.mode == AppMode::EditingSource,
        s.source_focus == SourceField::Device,
        key == Key::Right || key == Key::Left,
    ensures
        ({
            let t = s.handle_key(key);
            let lo = t.device_kind.spec_freq_range().0;
            let hi = t.device_kind.spec_freq_range().1;
            &&& t.device_kind != s.device_kind
            &&& key == Key::Right ==> t.device_kind == s.device_kind.spec_next()
            &&& key == Key::Left ==> t.device_kind == s.device_kind.spec_prev()
            &&& lo <= s.center_freq <= hi ==> t.center_freq == s.center_freq
            &&& s.center_freq < lo ==> t.center_freq == lo
            &&& s.center_freq > hi ==> t.center_freq == hi
            &&& t.sample_rate_idx == t.device_kind.spec_default_sample_rate_idx()
            &&& t.gain_idx == t.device_kind.spec_default_gain_idx()
            &&& t.outbox == s.outbox
            &&& t.disconnect_requested == (s.disconnect_requested || s.is_connected())
            &&& t.source_focus == SourceField::Connect
            &&& t.mode == s.mode
        }),
{
}

/// Outside the Source popup (where a device switch asks for a reconnect
/// instead), every key that changes the frequency while connected sends
/// exactly the new frequency to the DSP thread.
#[verifier::spinoff_prover]
pub proof fn lemma_frequency_change_is_sent(s: AppState, key: Key)
    requires
        s.is_connected(),
        s.mode != AppMode::EditingSource,
    ensures
        s.handle_key(key).center_freq != s.center_freq ==> s.handle_key(key).outbox == s.outbox.push(
            DspCommand::TuneFrequency(s.handle_key(key).center_freq),
        ),
{
}

/// The VFO steps: raising or lowering the cursor digit moves the frequency
/// by the digit's place value, and zeroing the digits right of the cursor
/// rounds it down to a multiple of that value; each result is brought into
/// the tunable range and sent to the DSP thread while connected.
pub proof fn lemma_vfo_steps_retune(s: AppState)
    requires
        s.vfo_cursor < 10,
    ensures
        retuned_towards(s, s.vfo_increment(), s.center_freq + pow10(s.vfo_cursor as nat)),
        retuned_towards(s, s.vfo_decrement(), s.center_freq - pow10(s.vfo_cursor as nat)),
        retuned_towards(
            s,
            s.vfo_zero_right(),
            (s.center_freq as int / pow10(s.vfo_cursor as nat) as int) * pow10(
                s.vfo_cursor as nat,
            ),
        ),
{
    lemma_vfo_up_retunes(s);
    lemma_vfo_down_retunes(s);
    lemma_vfo_zero_retunes(s);
}

/// The cursor's place value, as the state computes it.
proof fn lemma_vfo_step_value(s: AppState)
    requires
        s.vfo_cursor < 10,
    ensures
        s.vfo_step() as int == pow10(s.vfo_cursor as nat),
        1 <= pow10(s.vfo_cursor as nat),
{
    super::vfo::lemma_pow10_monotone(s.vfo_cursor as nat, 19);
    super::vfo::lemma_pow10_19();
    super::vfo::lemma_pow10_monotone(0, s.vfo_cursor as nat);
}

proof fn lemma_vfo_up_retunes(s: AppState)
    requires
        s.vfo_cursor < 10,
    ensures
        retuned_towards(s, s.vfo_increment(), s.center_freq + pow10(s.vfo_cursor as nat)),
{
    lemma_vfo_step_value(s);
    let f = super::model::sat_add_u64(s.center_freq, s.vfo_step());
    lemma_clamped_retunes(s, f);
}

proof fn lemma_vfo_down_retunes(s: AppState)
    requires
        s.vfo_cursor < 10,
    ensures
        retuned_towards(s, s.vfo_decrement(), s.center_freq - pow10(s.vfo_cursor as nat)),
{
    lemma_vfo_step_value(s);
    let f = super::model::sat_sub_u64(s.center_freq, s.vfo_step());
    lemma_clamped_retunes(s, f);
}

proof fn lemma_vfo_zero_retunes(s: AppState)
    requires
        s.vfo_cursor < 10,
    ensures
        retuned_towards(
            s,
            s.vfo_zero_right(),
            (s.center_freq as int / pow10(s.vfo_cursor as nat) as int) * pow10(
                s.vfo_cursor as nat,
            ),
        ),
{
    lemma_vfo_step_value(s);
    let p = pow10(s.vfo_cursor as nat) as int;
    let c = s.center_freq as int;
    assert(0 <= (c / p) * p <= c) by (nonlinear_arith)
        requires
            p >= 1,
            c >= 0,
    ;
    let step = s.vfo_step();
    let f = (s.center_freq / step * step) as u64;
    assert(f as int == (c / p) * p);
    lemma_clamped_retunes(s, f);
}

/// In the VFO editor, Up, Down and `z` retune as the VFO steps do, and Esc
/// tunes back to the frequency from when the editor opened, sends it while
/// connected, and closes the editor.
pub proof fn lemma_vfo_keys_retune(s: AppState, key: Key)
    requires
        s.mode == AppMode::EditingFrequency,
        s.vfo_cursor < 10,
    ensures
        key == Key::Up ==> retuned_towards(
            s,
            s.handle_key(key),
            s.center_freq + pow10(s.vfo_cursor as nat),
        ),
        key == Key::Down ==> retuned_towards(
            s,
            s.handle_key(key),
            s.center_freq - pow10(s.vfo_cursor as nat),
        ),
        key == Key::Char('z') ==> retuned_towards(
            s,
            s.handle_key(key),
            (s.center_freq as int / pow10(s.vfo_cursor as nat) as int) * pow10(
                s.vfo_cursor as nat,
            ),
        ),
        key == Key::Esc ==> {
            &&& s.handle_key(key).center_freq == s.vfo_freq_snapshot
            &&& s.handle_key(key).mode == AppMode::Normal
            &&& s.handle_key(key).outbox == queue_after(
                s,
                DspCommand::TuneFrequency(s.vfo_freq_snapshot),
            )
        },
{
    lemma_vfo_steps_retune(s);
}

/// In normal mode, Right and Left nudge the frequency by 0.1 MHz up or
/// down, within the tunable range, and send it while connected.
pub proof fn lemma_nudge_retunes(s: AppState)
    requires
        s.mode == AppMode::Normal,
    ensures
        retuned_towards(s, s.handle_key(Key::Right), s.center_freq + 100_000),
        retuned_towards(s, s.handle_key(Key::Left), s.center_freq - 100_000),
{
    lemma_nudge_up(s);
    lemma_nudge_down(s);
}

proof fn lemma_nudge_up(s: AppState)
    requires
        s.mode == AppMode::Normal,
    ensures
        retuned_towards(s, s.handle_key(Key::Right), s.center_freq + 100_000),
{
    let f = super::model::sat_add_u64(s.center_freq, super::NUDGE_HZ);
    assert(s.handle_key(Key::Right) == s.set_center_freq_clamped(f));
    lemma_clamped_retunes(s, f);
}

proof fn lemma_nudge_down(s: AppState)
    requires
        s.mode == AppMode::Normal,
    ensures
        retuned_towards(s, s.handle_key(Key::Left), s.center_freq - 100_000),
{
    let f = super::model::sat_sub_u64(s.center_freq, super::NUDGE_HZ);
    assert(s.handle_key(Key::Left) == s.set_center_freq_clamped(f));
    lemma_clamped_retunes(s, f);
}

/// Retuning to `f` brings `f` into the tunable range and sends it.
proof fn lemma_clamped_retunes(s: AppState, f: u64)
    ensures
        retuned_towards(s, s.set_center_freq_clamped(f), f as int),
{
    let t = s.set_center_freq_clamped(f);
    assert(t == (AppState { center_freq: t.center_freq, outbox: t.outbox, ..s }));
}

/// `idx` moved one place up (`up`) or down in `0..len`, wrapping at the ends.
pub open spec fn wrapped_step(idx: int, len: int, up: bool) -> int {
    if up {
        if idx + 1 >= len {
            0
        } else {
            idx + 1
        }
    } else {
        if idx <= 0 {
            len - 1
        } else {
            idx - 1
        }
    }
}

/// In the Source popup, Right and Left on the value fields: the sample rate
/// steps through the device's options, wrapping, and sends nothing (the
/// flowgraph is rebuilt on the next Connect); the gain mode flips between
/// AGC and manual and sends the new setting; the manual gain steps through
/// the device's gains, wrapping, and sends the new gain, unless AGC is on,
/// when nothing changes; the Connect row has no value to change.
#[verifier::spinoff_prover]
pub proof fn lemma_source_values_cycle(s: AppState, key: Key)
    requires
        s.wf(),
        s.mode == AppMode::EditingSource,
        key == Key::Right || key == Key::Left,
        s.key_fits(key),
    ensures
        ({
            let t = s.handle_key(key);
            let up = key == Key::Right;
            let gains = s.device_kind.gains_tenths();
            &&& s.source_focus == SourceField::SampleRate ==> {
                &&& t.sample_rate_idx == wrapped_step(
                    s.sample_rate_idx as int,
                    s.device_kind.sample_rate_count() as int,
                    up,
                )
                &&& t.outbox == s.outbox
                &&& t == (AppState { sample_rate_idx: t.sample_rate_idx, ..s })
            }
            &&& s.source_focus == SourceField::GainMode ==> {
                &&& t.agc_enabled == !s.agc_enabled
                &&& t.outbox == queue_after(
                    s,
                    if t.agc_enabled {
                        DspCommand::SetAgcMode(true)
                    } else {
                        DspCommand::SetManualGain(gains[s.gain_idx as int])
                    },
                )
                &&& t.gain_idx == s.gain_idx
            }
            &&& (s.source_focus == SourceField::ManualGain && s.agc_enabled) ==> t == s
            &&& (s.source_focus == SourceField::ManualGain && !s.agc_enabled) ==> {
                &&& t.gain_idx == wrapped_step(
                    s.gain_idx as int,
                    s.device_kind.gain_count() as int,
                    up,
                )
                &&& t.outbox == queue_after(
                    s,
                    DspCommand::SetManualGain(gains[t.gain_idx as int]),
                )
                &&& t.agc_enabled == s.agc_enabled
            }
            &&& s.source_focus == SourceField::Connect ==> t == s
        }),
{
    let len_sr = s.device_kind.sample_rate_count() as int;
    let len_g = s.device_kind.gain_count() as int;
    assert(len_sr > 1 && len_g > 1);
    let d: int = if key == Key::Right {
        1
    } else {
        -1
    };
    assert((s.sample_rate_idx + d) % len_sr == wrapped_step(s.sample_rate_idx as int, len_sr, key
        == Key::Right)) by {
        if s.sample_rate_idx + d == len_sr {
            vstd::arithmetic::div_mod::lemma_mod_self_0(len_sr);
        } else if s.sample_rate_idx + d == -1 {
            vstd::arithmetic::div_mod::lemma_mod_add_multiples_vanish(-1, len_sr);
            vstd::arithmetic::div_mod::lemma_small_mod((len_sr - 1) as nat, len_sr as nat);
        } else {
            vstd::arithmetic::div_mod::lemma_small_mod((s.sample_rate_idx + d) as nat, len_sr as nat);
        }
    }
    assert((s.gain_idx + d) % len_g == wrapped_step(s.gain_idx as int, len_g, key == Key::Right))
        by {
        if s.gain_idx + d == len_g {
            vstd::arithmetic::div_mod::lemma_mod_self_0(len_g);
        } else if s.gain_idx + d == -1 {
            vstd::arithmetic::div_mod::lemma_mod_add_multiples_vanish(-1, len_g);
            vstd::arithmetic::div_mod::lemma_small_mod((len_g - 1) as nat, len_g as nat);
        } else {
            vstd::arithmetic::div_mod::lemma_small_mod((s.gain_idx + d) as nat, len_g as nat);
        }
    }
}

/// The normal-mode letter keys: `q` stops the program, `o` flips the
/// spectrum overlay, Space asks to start the stream when stopped and to stop
/// it when running, `f`, `m`, `s`, `r` and `h` open their editors (the VFO
/// and dB editors remembering what Esc restores, the popups on their first
/// field); none of them sends a command or retunes.
pub proof fn lemma_normal_letter_keys(s: AppState)
    requires
        s.mode == AppMode::Normal,
    ensures
        s.handle_key(Key::Char('q')) == (AppState { running: false, ..s }),
        s.handle_key(Key::Char('o')) == (AppState { show_overlay: !s.show_overlay, ..s }),
        !s.is_connected() ==> s.handle_key(Key::Char(' ')) == (AppState {
            connect_requested: true,
            ..s
        }),
        s.is_connected() ==> s.handle_key(Key::Char(' ')) == (AppState {
            disconnect_requested: true,
            ..s
        }),
        s.handle_key(Key::Char('f')) == (AppState {
            mode: AppMode::EditingFrequency,
            vfo_freq_snapshot: s.center_freq,
            ..s
        }),
        s.handle_key(Key::Char('m')) == (AppState {
            mode: AppMode::EditingMinMax,
            y_min_snapshot: s.y_min,
            y_max_snapshot: s.y_max,
            minmax_focus: MinMaxFocus::Min,
            ..s
        }),
        s.handle_key(Key::Char('s')) == (AppState {
            mode: AppMode::EditingSource,
            source_focus: SourceField::Device,
            ..s
        }),
        s.handle_key(Key::Char('r')) == (AppState {
            mode: AppMode::EditingRadio,
            radio_focus: RadioField::Mode,
            ..s
        }),
        s.handle_key(Key::Char('h')) == (AppState { mode: AppMode::Help, ..s }),
{
}

/// The keys that only move around: in the popups, Up and Down (and Tab,
/// BackTab) move the focus between fields, Esc closes (and Enter does,
/// except on Connect, where it asks to connect); in the VFO editor Left and
/// Right move the cursor one digit, stopping at the ends, and Enter commits;
/// Esc, Enter, `h` and `q` close the help. None of them changes anything
/// else.
pub proof fn lemma_navigation_keys(s: AppState, key: Key)
    ensures
        s.mode == AppMode::EditingSource ==> {
            &&& (key == Key::Up || key == Key::BackTab) ==> s.handle_key(key) == (AppState {
                source_focus: s.source_focus.spec_prev(),
                ..s
            })
            &&& (key == Key::Down || key == Key::Tab) ==> s.handle_key(key) == (AppState {
                source_focus: s.source_focus.spec_next(),
                ..s
            })
            &&& key == Key::Esc ==> s.handle_key(key) == (AppState { mode: AppMode::Normal, ..s })
            &&& (key == Key::Enter && s.source_focus == SourceField::Connect) ==> s.handle_key(key)
                == (AppState { connect_requested: true, ..s })
            &&& (key == Key::Enter && s.source_focus != SourceField::Connect) ==> s.handle_key(key)
                == (AppState { mode: AppMode::Normal, ..s })
        },
        s.mode == AppMode::EditingRadio ==> {
            &&& key == Key::Up ==> s.handle_key(key) == (AppState {
                radio_focus: s.radio_focus.spec_prev(),
                ..s
            })
            &&& (key == Key::Down || key == Key::Tab || key == Key::BackTab) ==> s.handle_key(key)
                == (AppState { radio_focus: s.radio_focus.spec_next(), ..s })
            &&& (key == Key::Esc || key == Key::Enter) ==> s.handle_key(key) == (AppState {
                mode: AppMode::Normal,
                ..s
            })
        },
        s.mode == AppMode::EditingFrequency ==> {
            &&& key == Key::Left ==> s.handle_key(key) == (AppState {
                vfo_cursor: if s.vfo_cursor < 9 {
                    (s.vfo_cursor + 1) as usize
                } else {
                    s.vfo_cursor
                },
                ..s
            })
            &&& key == Key::Right ==> s.handle_key(key) == (AppState {
                vfo_cursor: if s.vfo_cursor > 0 {
                    (s.vfo_cursor - 1) as usize
                } else {
                    s.vfo_cursor
                },
                ..s
            })
            &&& key == Key::Enter ==> s.handle_key(key) == (AppState { mode: AppMode::Normal, ..s })
        },
        s.mode == AppMode::EditingMinMax ==> (key == Key::Enter ==> s.handle_key(key) == (
        AppState { mode: AppMode::Normal, ..s })),
        s.mode == AppMode::Help ==> ((key == Key::Esc || key == Key::Enter || key == Key::Char('h')
            || key == Key::Char('q')) ==> s.handle_key(key) == (AppState {
            mode: AppMode::Normal,
            ..s
        })),
{
}

} // verus!
