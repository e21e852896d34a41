//! Demodulation modes and the fields of the Radio popup.

use vstd::prelude::*;

use crate::command::{MODE_AM, MODE_NBFM, MODE_OFF, MODE_WBFM};

verus! {

#[derive(Debug, Clone, Copy, PartialEq, Eq, Structural)]
pub enum RadioMode {
    Off,
    WBFM,
    NBFM,
    AM,
}

impl RadioMode {
    pub open spec fn spec_label(self) -> Seq<char> {
        match self {
            RadioMode::Off => "Off"@,
            RadioMode::WBFM => "WBFM"@,
            RadioMode::NBFM => "NBFM"@,
            RadioMode::AM => "AM"@,
        }
    }

    pub fn label(self) -> (r: &'static str)
        ensures
            r@ == self.spec_label(),
    {
        match self {
            RadioMode::Off => "Off",
            RadioMode::WBFM => "WBFM",
            RadioMode::NBFM => "NBFM",
            RadioMode::AM => "AM",
        }
    }

    /// Every mode is wired up to a working DSP path.
    pub open spec fn spec_is_supported(self) -> bool {
        true
    }

    /// True for modes that are wired up to a working DSP path.
    pub fn is_supported(self) -> (r: bool)
        ensures
            r == self.spec_is_supported(),
    {
        match self {
            RadioMode::Off | RadioMode::WBFM | RadioMode::NBFM | RadioMode::AM => true,
        }
    }

    pub open spec fn spec_code(self) -> u8 {
        match self {
            RadioMode::Off => MODE_OFF,
            RadioMode::WBFM => MODE_WBFM,
            RadioMode::NBFM => MODE_NBFM,
            RadioMode::AM => MODE_AM,
        }
    }

    /// Numeric code matching the `MODE_*` constants shared with the DSP side.
    pub fn code(self) -> (r: u8)
        ensures
            r == self.spec_code(),
    {
        match self {
            RadioMode::Off => MODE_OFF,
            RadioMode::WBFM => MODE_WBFM,
            RadioMode::NBFM => MODE_NBFM,
            RadioMode::AM => MODE_AM,
        }
    }

    pub open spec fn spec_bandwidth_hz(self) -> Option<u32> {
        match self {
            RadioMode::Off => None,
            RadioMode::WBFM => Some(200_000),
            RadioMode::NBFM => Some(12_500),
            RadioMode::AM => Some(10_000),
        }
    }

    /// Approximate occupied bandwidth in Hz, used for the spectrum overlay;
    /// `None` for `Off`, so that the overlay hides the bandwidth shading.
    pub fn bandwidth_hz(self) -> (r: Option<u32>)
        ensures
            r == self.spec_bandwidth_hz(),
    {
        match self {
            RadioMode::Off => None,
            RadioMode::WBFM => Some(200_000),
            RadioMode::NBFM => Some(12_500),
            RadioMode::AM => Some(10_000),
        }
    }

    /// Cycling order Off → WBFM → NBFM → AM → Off.
    pub open spec fn spec_next(self) -> RadioMode {
        match self {
            RadioMode::Off => RadioMode::WBFM,
            RadioMode::WBFM => RadioMode::NBFM,
            RadioMode::NBFM => RadioMode::AM,
            RadioMode::AM => RadioMode::Off,
        }
    }

    pub open spec fn spec_prev(self) -> RadioMode {
        match self {
            RadioMode::Off => RadioMode::AM,
            RadioMode::WBFM => RadioMode::Off,
            RadioMode::NBFM => RadioMode::WBFM,
            RadioMode::AM => RadioMode::NBFM,
        }
    }

    pub fn next(self) -> (r: RadioMode)
        ensures
            r == self.spec_next(),
    {
        match self {
            RadioMode::Off => RadioMode::WBFM,
            RadioMode::WBFM => RadioMode::NBFM,
            RadioMode::NBFM => RadioMode::AM,
            RadioMode::AM => RadioMode::Off,
        }
    }

    pub fn prev(self) -> (r: RadioMode)
        ensures
            r == self.spec_prev(),
    {
        match self {
            RadioMode::Off => RadioMode::AM,
            RadioMode::WBFM => RadioMode::Off,
            RadioMode::NBFM => RadioMode::WBFM,
            RadioMode::AM => RadioMode::NBFM,
        }
    }
}

#[derive(Debug, Clone, Copy, PartialEq, Eq, Structural)]
pub enum RadioField {
    Mode,
    Squelch,
}

impl RadioField {
    pub open spec fn spec_next(self) -> RadioField {
        match self {
            RadioField::Mode => RadioField::Squelch,
            RadioField::Squelch => RadioField::Mode,
        }
    }

    pub open spec fn spec_prev(self) -> RadioField {
        self.spec_next()
    }

    pub fn next(self) -> (r: RadioField)
        ensures
            r == self.spec_next(),
    {
        match self {
            RadioField::Mode => RadioField::Squelch,
            RadioField::Squelch => RadioField::Mode,
        }
    }

    pub fn prev(self) -> (r: RadioField)
        ensures
            r == self.spec_prev(),
    {
        self.next()
    }
}

/// `next` and `prev` undo each other, and four steps of `next` visit every
/// mode and come back to the start.
pub proof fn lemma_radio_mode_cycle(m: RadioMode)
    ensures
        m.spec_next().spec_prev() == m,
        m.spec_prev().spec_next() == m,
        m.spec_next().spec_next().spec_next().spec_next() == m,
        m.spec_next() != m,
{
}

/// Mode codes are distinct and lie below four, so the DSP side can tell the
/// modes apart by code alone.
pub proof fn lemma_radio_code_injective(a: RadioMode, b: RadioMode)
    ensures
        a.spec_code() < 4,
        a.spec_code() == b.spec_code() <==> a == b,
{
}

/// A mode has a bandwidth exactly when it is not `Off`.
pub proof fn lemma_bandwidth_iff_active(m: RadioMode)
    ensures
        m.spec_bandwidth_hz() is Some <==> m != RadioMode::Off,
{
}

/// The two Radio popup fields alternate: `next` and `prev` coincide and two
/// steps return to the start.
pub proof fn lemma_radio_field_cycle(f: RadioField)
    ensures
        f.spec_next().spec_next() == f,
        f.spec_prev() == f.spec_next(),
        f.spec_next() != f,
{
}

} // verus!
