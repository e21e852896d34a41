//! The keys that the application reacts to.

use vstd::prelude::*;

verus! {

/// A pressed key, as far as the application distinguishes keys.
#[derive(Debug, Clone, Copy, PartialEq, Eq, Structural)]
pub enum Key {
    Char(char),
    Esc,
    Enter,
    Tab,
    BackTab,
    Up,
    Down,
    Left,
    Right,
    /// Any key that no handler reacts to.
    Other,
}

} // verus!
