//! Frequency tuning: the VFO editor and clamped retuning.

use vstd::prelude::*;

use super::model::{pow10, min_u64};
use super::{App, AppMode, VFO_MAX_HZ};
use crate::key::Key;
use crate::VFO_DIGITS;

verus! {

/// `10^n` grows with `n`.
pub proof fn lemma_pow10_monotone(a: nat, b: nat)
    requires
        a <= b,
    ensures
        1 <= pow10(a) <= pow10(b),
    decreases b,
{
    if a < b {
        lemma_pow10_monotone(a, (b - 1) as nat);
    } else if b > 0 {
        lemma_pow10_monotone(0, (b - 1) as nat);
    }
}

/// `10^19` is the largest power of ten that fits in a `u64`.
pub proof fn lemma_pow10_19()
    ensures
        pow10(19) == 10_000_000_000_000_000_000,
{
    reveal_with_fuel(pow10, 20);
}

impl App {
    pub(crate) fn handle_freq_key(&mut self, key: Key)
        requires
            old(self)@.wf(),
        ensures
            final(self)@ == old(self)@.handle_freq_key(key),
    {
        match key {
            Key::Esc => {
                self.center_freq = self.vfo_freq_snapshot;
                self.send_freq();
                self.mode = AppMode::Normal;
            },
            Key::Enter => {
                self.mode = AppMode::Normal;
            },
            Key::Left => {
                if self.vfo_cursor < VFO_DIGITS - 1 {
                    self.vfo_cursor += 1;
                }
            },
            Key::Right => {
                if self.vfo_cursor > 0 {
                    self.vfo_cursor -= 1;
                }
            },
            Key::Up => self.vfo_increment(),
            Key::Down => self.vfo_decrement(),
            Key::Char(c) => {
                if c == 'z' {
                    self.vfo_zero_right();
                }
            },
            _ => {},
        }
    }

    /// The place value of the cursor digit: `10^vfo_cursor`.
    pub fn vfo_step(&self) -> (r: u64)
        requires
            self.vfo_cursor < 20,
        ensures
            r as nat == pow10(self.vfo_cursor as nat),
            r == self@.vfo_step(),
    {
        let mut r: u64 = 1;
        let mut i: usize = 0;
        while i < self.vfo_cursor
            invariant
                i <= self.vfo_cursor < 20,
                r as nat == pow10(i as nat),
            decreases self.vfo_cursor - i,
        {
            proof {
                lemma_pow10_monotone((i + 1) as nat, 19);
                lemma_pow10_19();
            }
            r = r * 10;
            i = i + 1;
        }
        r
    }

    /// Tune up by one unit of the cursor digit (saturating, then clamped).
    pub fn vfo_increment(&mut self)
        requires
            old(self).vfo_cursor < 20,
        ensures
            final(self)@ == old(self)@.vfo_increment(),
            old(self)@.wf() ==> final(self)@.wf(),
    {
        let f = self.center_freq.saturating_add(self.vfo_step());
        self.set_center_freq_clamped(f);
    }

    /// Tune down by one unit of the cursor digit (saturating, then clamped).
    pub fn vfo_decrement(&mut self)
        requires
            old(self).vfo_cursor < 20,
        ensures
            final(self)@ == old(self)@.vfo_decrement(),
            old(self)@.wf() ==> final(self)@.wf(),
    {
        let f = self.center_freq.saturating_sub(self.vfo_step());
        self.set_center_freq_clamped(f);
    }

    /// Zero out all digits to the right of the cursor.
    pub fn vfo_zero_right(&mut self)
        requires
            old(self).vfo_cursor < 20,
        ensures
            final(self)@ == old(self)@.vfo_zero_right(),
            old(self)@.wf() ==> final(self)@.wf(),
    {
        let step = self.vfo_step();
        proof {
            lemma_pow10_monotone(0, self.vfo_cursor as nat);
            let c = self.center_freq as int;
            assert(c / (step as int) * (step as int) <= c) by (nonlinear_arith)
                requires
                    step > 0,
                    c >= 0,
            ;
        }
        let f = self.center_freq / step * step;
        self.set_center_freq_clamped(f);
    }

    /// Clamp `freq` into the current device's tunable range (and the VFO
    /// widget's) and tune to it.
    pub fn set_center_freq_clamped(&mut self, freq: u64)
        ensures
            final(self)@ == old(self)@.set_center_freq_clamped(freq),
            old(self)@.wf() ==> final(self)@.wf(),
    {
        let (lo, hi) = self.device_kind.freq_range();
        let top = if hi < VFO_MAX_HZ {
            hi
        } else {
            VFO_MAX_HZ
        };
        assert(top == min_u64(hi, VFO_MAX_HZ));
        self.center_freq = if freq < lo {
            lo
        } else if freq > top {
            top
        } else {
            freq
        };
        self.send_freq();
    }
}

} // verus!
