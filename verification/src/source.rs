//! Fields of the Source popup.

use vstd::prelude::*;

verus! {

#[derive(Debug, Clone, Copy, PartialEq, Eq, Structural)]
pub enum SourceField {
    Device,
    SampleRate,
    GainMode,
    ManualGain,
    /// Action row at the bottom: Connect when disconnected, Reconnect when
    /// connected.
    Connect,
}

impl SourceField {
    /// Position of the field in the popup, top to bottom.
    pub open spec fn position(self) -> int {
        match self {
            SourceField::Device => 0,
            SourceField::SampleRate => 1,
            SourceField::GainMode => 2,
            SourceField::ManualGain => 3,
            SourceField::Connect => 4,
        }
    }

    pub open spec fn spec_next(self) -> SourceField {
        match self {
            SourceField::Device => SourceField::SampleRate,
            SourceField::SampleRate => SourceField::GainMode,
            SourceField::GainMode => SourceField::ManualGain,
            SourceField::ManualGain => SourceField::Connect,
            SourceField::Connect => SourceField::Device,
        }
    }

    pub open spec fn spec_prev(self) -> SourceField {
        match self {
            SourceField::Device => SourceField::Connect,
            SourceField::SampleRate => SourceField::Device,
            SourceField::GainMode => SourceField::SampleRate,
            SourceField::ManualGain => SourceField::GainMode,
            SourceField::Connect => SourceField::ManualGain,
        }
    }

    pub fn next(self) -> (r: SourceField)
        ensures
            r == self.spec_next(),
    {
        match self {
            SourceField::Device => SourceField::SampleRate,
            SourceField::SampleRate => SourceField::GainMode,
            SourceField::GainMode => SourceField::ManualGain,
            SourceField::ManualGain => SourceField::Connect,
            SourceField::Connect => SourceField::Device,
        }
    }

    pub fn prev(self) -> (r: SourceField)
        ensures
            r == self.spec_prev(),
    {
        match self {
            SourceField::Device => SourceField::Connect,
            SourceField::SampleRate => SourceField::Device,
            SourceField::GainMode => SourceField::SampleRate,
            SourceField::ManualGain => SourceField::GainMode,
            SourceField::Connect => SourceField::ManualGain,
        }
    }
}

/// `next` moves one row down and `prev` one row up, wrapping between the
/// last and the first row; each undoes the other.
pub proof fn lemma_source_field_cycle(f: SourceField)
    ensures
        f.spec_next().position() == (f.position() + 1) % 5,
        f.spec_prev().position() == (f.position() + 4) % 5,
        f.spec_next().spec_prev() == f,
        f.spec_prev().spec_next() == f,
{
}

} // verus!
