//! Audio mute, demodulation mode cycling and the squelch slider.

use vstd::prelude::*;

use super::model::{clamp_int, signum};
use super::{App, AppMode, SQUELCH_MAX, SQUELCH_MIN, SQUELCH_STEP};
use crate::command::DspCommand;
use crate::key::Key;
use crate::radio::{RadioField, RadioMode};

verus! {

/// The squelch level in thousandths of its range, for the slider.
pub open spec fn squelch_permille(squelch_db: i32) -> int {
    clamp_int(squelch_db - SQUELCH_MIN, 0, SQUELCH_MAX - SQUELCH_MIN)
}

/// The next supported mode in the direction of `delta`, skipping
/// unsupported modes (at most once round the list).
fn next_supported_mode(start: RadioMode, delta: i32) -> (r: RadioMode)
    ensures
        r == (if delta >= 0 {
            start.spec_next()
        } else {
            start.spec_prev()
        }),
{
    let mut next = start;
    let mut tries: usize = 0;
    while tries < 4
        invariant_except_break
            tries == 0,
            next == start,
        ensures
            next == (if delta >= 0 {
                start.spec_next()
            } else {
                start.spec_prev()
            }),
        decreases 4 - tries,
    {
        next = if delta >= 0 {
            next.next()
        } else {
            next.prev()
        };
        if next.is_supported() {
            break ;
        }
        tries += 1;
    }
    next
}

impl App {
    /// Toggle between `Off` and the last mode other than `Off`.
    pub fn toggle_mute(&mut self)
        ensures
            final(self)@ == old(self)@.toggle_mute(),
            old(self)@.wf() ==> final(self)@.wf(),
    {
        if self.radio_mode == RadioMode::Off {
            let m = self.last_radio_mode;
            self.set_radio_mode(m);
        } else {
            self.last_radio_mode = self.radio_mode;
            self.set_radio_mode(RadioMode::Off);
        }
    }

    fn set_radio_mode(&mut self, mode: RadioMode)
        ensures
            final(self)@ == old(self)@.set_radio_mode(mode),
    {
        self.radio_mode = mode;
        let code = mode.code();
        self.send_cmd(DspCommand::SetRadioMode(code));
    }

    /// Step the focused Radio field in the direction of `delta`: the mode
    /// (skipping unsupported ones) or the squelch by one step, clamped.
    fn radio_cycle(&mut self, delta: i32)
        requires
            old(self)@.wf(),
        ensures
            final(self)@ == old(self)@.radio_cycle(delta),
    {
        match self.radio_focus {
            RadioField::Mode => {
                let next = next_supported_mode(self.radio_mode, delta);
                if next != RadioMode::Off {
                    self.last_radio_mode = next;
                }
                self.set_radio_mode(next);
            },
            RadioField::Squelch => {
                let sign: i32 = if delta > 0 {
                    1
                } else if delta < 0 {
                    -1
                } else {
                    0
                };
                assert(sign == signum(delta));
                let raw = self.squelch_db + SQUELCH_STEP * sign;
                let sq = if raw < SQUELCH_MIN {
                    SQUELCH_MIN
                } else if raw > SQUELCH_MAX {
                    SQUELCH_MAX
                } else {
                    raw
                };
                self.squelch_db = sq;
                self.send_cmd(DspCommand::SetSquelchDb(sq));
            },
        }
    }

    /// Squelch position on its slider, in thousandths of the range (0 at
    /// -100 dB, 1000 at 0 dB).
    pub fn squelch_fraction(&self) -> (r: u32)
        ensures
            r as int == squelch_permille(self.squelch_db),
    {
        let offset = self.squelch_db as i64 - SQUELCH_MIN as i64;
        let span = (SQUELCH_MAX - SQUELCH_MIN) as i64;
        if offset < 0 {
            0
        } else if offset > span {
            span as u32
        } else {
            offset as u32
        }
    }

    pub(crate) fn handle_radio_key(&mut self, key: Key)
        requires
            old(self)@.wf(),
        ensures
            final(self)@ == old(self)@.handle_radio_key(key),
    {
        match key {
            Key::Esc | Key::Enter => {
                self.mode = AppMode::Normal;
            },
            Key::Up => {
                self.radio_focus = self.radio_focus.prev();
            },
            Key::Down | Key::Tab | Key::BackTab => {
                self.radio_focus = self.radio_focus.next();
            },
            Key::Right => self.radio_cycle(1),
            Key::Left => self.radio_cycle(-1),
            _ => {},
        }
    }
}

} // verus!
