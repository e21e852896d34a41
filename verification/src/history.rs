//! The waterfall history: the newest spectrum frames, newest first.

use vstd::prelude::*;

use std::collections::VecDeque;

use crate::WATERFALL_MAX_ROWS;

verus! {

/// The history after `frame` arrives: the frame in front, and the oldest
/// row dropped once the history would exceed `WATERFALL_MAX_ROWS`.
pub open spec fn pushed_history<T>(history: Seq<T>, frame: T) -> Seq<T> {
    let pushed = seq![frame] + history;
    if pushed.len() > WATERFALL_MAX_ROWS {
        pushed.drop_last()
    } else {
        pushed
    }
}

/// The newest frame comes first, the rest keep their order, and the
/// history never grows past `WATERFALL_MAX_ROWS`.
pub proof fn lemma_history_bounded<T>(history: Seq<T>, frame: T)
    requires
        history.len() <= WATERFALL_MAX_ROWS,
    ensures
        pushed_history(history, frame).len() <= WATERFALL_MAX_ROWS,
        pushed_history(history, frame)[0] == frame,
        forall|i: int|
            0 <= i < pushed_history(history, frame).len() - 1 ==> pushed_history(history, frame)[i
                + 1] == history[i],
{
}

/// Put a newly received frame in front of the waterfall history, dropping
/// the oldest row when the history is over its size.
pub fn push_waterfall_row<T>(history: &mut VecDeque<T>, frame: T)
    ensures
        final(history)@ == pushed_history(old(history)@, frame),
{
    history.push_front(frame);
    if history.len() > WATERFALL_MAX_ROWS {
        history.pop_back();
    }
}

} // verus!
