//! The Y-axis (dB range) stepper.

use vstd::prelude::*;

use super::{App, AppMode, MinMaxFocus, DB_STEP};
use crate::key::Key;

verus! {

/// `x + DB_STEP`, saturating.
fn step_up_sat(x: i64) -> (r: i64)
    ensures
        r == super::model::sat_i64(x + DB_STEP),
{
    if x > i64::MAX - DB_STEP {
        i64::MAX
    } else {
        x + DB_STEP
    }
}

/// `x - DB_STEP`, saturating.
fn step_down_sat(x: i64) -> (r: i64)
    ensures
        r == super::model::sat_i64(x - DB_STEP),
{
    if x < i64::MIN + DB_STEP {
        i64::MIN
    } else {
        x - DB_STEP
    }
}

impl App {
    pub(crate) fn handle_minmax_key(&mut self, key: Key)
        ensures
            final(self)@ == old(self)@.handle_minmax_key(key),
    {
        match key {
            Key::Esc => {
                self.y_min = self.y_min_snapshot;
                self.y_max = self.y_max_snapshot;
                self.mode = AppMode::Normal;
            },
            Key::Enter => {
                self.mode = AppMode::Normal;
            },
            Key::Tab | Key::BackTab => {
                self.minmax_focus = match self.minmax_focus {
                    MinMaxFocus::Min => MinMaxFocus::Max,
                    MinMaxFocus::Max => MinMaxFocus::Min,
                };
            },
            Key::Up => self.minmax_step_up(),
            Key::Down => self.minmax_step_down(),
            _ => {},
        }
    }

    /// Raise the focused bound by one step, then keep the bounds apart.
    pub fn minmax_step_up(&mut self)
        ensures
            final(self)@ == old(self)@.minmax_step_up(),
            old(self)@.wf() ==> final(self)@.wf(),
    {
        match self.minmax_focus {
            MinMaxFocus::Min => self.y_min = step_up_sat(self.y_min),
            MinMaxFocus::Max => self.y_max = step_up_sat(self.y_max),
        }
        self.clamp_minmax();
    }

    /// Lower the focused bound by one step, then keep the bounds apart.
    pub fn minmax_step_down(&mut self)
        ensures
            final(self)@ == old(self)@.minmax_step_down(),
            old(self)@.wf() ==> final(self)@.wf(),
    {
        match self.minmax_focus {
            MinMaxFocus::Min => self.y_min = step_down_sat(self.y_min),
            MinMaxFocus::Max => self.y_max = step_down_sat(self.y_max),
        }
        self.clamp_minmax();
    }

    /// Ensure min stays below max with at least one step of separation, by
    /// moving the focused bound.
    pub(crate) fn clamp_minmax(&mut self)
        ensures
            final(self)@ == old(self)@.clamp_minmax(),
    {
        let too_close = self.y_max < i64::MIN + DB_STEP || self.y_min >= self.y_max - DB_STEP;
        if too_close {
            match self.minmax_focus {
                MinMaxFocus::Min => self.y_min = step_down_sat(self.y_max),
                MinMaxFocus::Max => self.y_max = step_up_sat(self.y_min),
            }
        }
    }
}

} // verus!
