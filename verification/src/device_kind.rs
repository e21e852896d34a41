//! Supported SDR device kinds. Each variant knows its display name, the
//! arguments needed to open it, its tunable frequency range, and the
//! sample-rate and manual-gain option tables offered in the Source popup.

use vstd::prelude::*;

verus! {

#[derive(Debug, Clone, Copy, PartialEq, Eq, Structural)]
pub enum DeviceKind {
    RtlSdr,
    HackRf,
}

/// Every device kind, in cycling order.
pub open spec fn all_device_kinds() -> Seq<DeviceKind> {
    seq![DeviceKind::RtlSdr, DeviceKind::HackRf]
}

/// Number of device kinds.
pub const DEVICE_KIND_COUNT: usize = 2;

impl DeviceKind {
    /// Position of this kind in [`all_device_kinds`].
    pub open spec fn index_of(self) -> int {
        match self {
            DeviceKind::RtlSdr => 0,
            DeviceKind::HackRf => 1,
        }
    }

    pub open spec fn spec_label(self) -> Seq<char> {
        match self {
            DeviceKind::RtlSdr => "RTL-SDR"@,
            DeviceKind::HackRf => "HackRF"@,
        }
    }

    pub fn label(self) -> (r: &'static str)
        ensures
            r@ == self.spec_label(),
    {
        match self {
            DeviceKind::RtlSdr => "RTL-SDR",
            DeviceKind::HackRf => "HackRF",
        }
    }

    /// Both kinds have a working open path.
    pub open spec fn spec_is_supported(self) -> bool {
        true
    }

    /// `true` when the device kind has a working open path; cycling skips
    /// the kinds for which this is `false`.
    pub fn is_supported(self) -> (r: bool)
        ensures
            r == self.spec_is_supported(),
    {
        match self {
            DeviceKind::RtlSdr => true,
            DeviceKind::HackRf => true,
        }
    }

    /// Number of sample-rate options of this device.
    pub open spec fn sample_rate_count(self) -> nat {
        match self {
            DeviceKind::RtlSdr => 8,
            DeviceKind::HackRf => 7,
        }
    }

    /// Number of manual-gain options of this device.
    pub open spec fn gain_count(self) -> nat {
        match self {
            DeviceKind::RtlSdr => 29,
            DeviceKind::HackRf => 52,
        }
    }

    /// Sample rates (Hz) offered for this device, in index order.
    #[verifier::opaque]
    pub open spec fn sample_rates(self) -> Seq<u32> {
        match self {
            DeviceKind::RtlSdr => seq![
                250_000u32, 1_024_000, 1_536_000, 1_792_000, 1_920_000, 2_048_000, 2_400_000,
                2_560_000,
            ],
            DeviceKind::HackRf => seq![
                2_000_000u32, 4_000_000, 8_000_000, 10_000_000, 12_500_000, 16_000_000, 20_000_000,
            ],
        }
    }

    /// Sample rates this device kind supports, in Hz. The order matches the
    /// indices stored in the application's `sample_rate_idx`.
    pub fn sample_rate_options(self) -> (r: &'static [u32])
        ensures
            r@ == self.sample_rates(),
            r@.len() == self.sample_rate_count(),
    {
        reveal(DeviceKind::sample_rates);
        match self {
            DeviceKind::RtlSdr => &[
                250_000, 1_024_000, 1_536_000, 1_792_000, 1_920_000, 2_048_000, 2_400_000, 2_560_000,
            ],
            DeviceKind::HackRf => &[
                2_000_000, 4_000_000, 8_000_000, 10_000_000, 12_500_000, 16_000_000, 20_000_000,
            ],
        }
    }

    pub open spec fn spec_default_sample_rate_idx(self) -> usize {
        match self {
            DeviceKind::RtlSdr => 1,
            DeviceKind::HackRf => 0,
        }
    }

    /// Index of the default sample rate within `sample_rate_options()`
    /// (1.024 MSPS for the RTL-SDR, 2 MSPS for the HackRF).
    pub fn default_sample_rate_idx(self) -> (r: usize)
        ensures
            r == self.spec_default_sample_rate_idx(),
            r < self.sample_rate_count(),
    {
        match self {
            DeviceKind::RtlSdr => 1,
            DeviceKind::HackRf => 0,
        }
    }

    /// Manual-gain options in tenths of a dB, in index order.
    #[verifier::opaque]
    pub open spec fn gains_tenths(self) -> Seq<i32> {
        match self {
            DeviceKind::RtlSdr => seq![
                0i32, 9, 14, 27, 37, 77, 87, 125, 144, 157, 166, 197, 207, 229, 254, 280, 297, 328,
                338, 364, 372, 386, 402, 421, 434, 439, 445, 480, 496,
            ],
            DeviceKind::HackRf => Seq::new(52, |i: int| (20 * i) as i32),
        }
    }

    /// Manual-gain options in tenths of a dB. The RTL-SDR list holds the
    /// tuner's supported steps; the HackRF list covers 0..=102 dB in 2 dB
    /// steps.
    pub fn gain_options_tenths(self) -> (r: &'static [i32])
        ensures
            r@ == self.gains_tenths(),
            r@.len() == self.gain_count(),
    {
        reveal(DeviceKind::gains_tenths);
        match self {
            DeviceKind::RtlSdr => &[
                0, 9, 14, 27, 37, 77, 87, 125, 144, 157, 166, 197, 207, 229, 254, 280, 297, 328,
                338, 364, 372, 386, 402, 421, 434, 439, 445, 480, 496,
            ],
            DeviceKind::HackRf => {
                let r: &'static [i32] = &[
                    0, 20, 40, 60, 80, 100, 120, 140, 160, 180, 200, 220, 240, 260, 280, 300, 320,
                    340, 360, 380, 400, 420, 440, 460, 480, 500, 520, 540, 560, 580, 600, 620, 640,
                    660, 680, 700, 720, 740, 760, 780, 800, 820, 840, 860, 880, 900, 920, 940, 960,
                    980, 1000, 1020,
                ];
                assert(r@ =~= Seq::new(52, |i: int| (20 * i) as i32));
                r
            },
        }
    }

    pub open spec fn spec_default_gain_idx(self) -> usize {
        (self.gain_count() / 2) as usize
    }

    /// Index of the default gain: the middle of the option list.
    pub fn default_gain_idx(self) -> (r: usize)
        ensures
            r == self.spec_default_gain_idx(),
            r < self.gain_count(),
    {
        self.gain_options_tenths().len() / 2
    }

    pub open spec fn spec_open_args(self) -> Seq<char> {
        match self {
            DeviceKind::RtlSdr => "driver=soapy,soapy_driver=rtlsdr"@,
            DeviceKind::HackRf => "driver=soapy,soapy_driver=hackrf"@,
        }
    }

    /// Argument string used to open this device.
    pub fn open_args(self) -> (r: &'static str)
        ensures
            r@ == self.spec_open_args(),
    {
        match self {
            DeviceKind::RtlSdr => "driver=soapy,soapy_driver=rtlsdr",
            DeviceKind::HackRf => "driver=soapy,soapy_driver=hackrf",
        }
    }

    pub open spec fn spec_freq_range(self) -> (u64, u64) {
        match self {
            DeviceKind::RtlSdr => (24_000_000, 1_766_000_000),
            DeviceKind::HackRf => (1_000_000, 6_000_000_000),
        }
    }

    /// Tunable frequency range in Hz `(min, max)`.
    pub fn freq_range(self) -> (r: (u64, u64))
        ensures
            r == self.spec_freq_range(),
            r.0 < r.1,
    {
        match self {
            DeviceKind::RtlSdr => (24_000_000, 1_766_000_000),
            DeviceKind::HackRf => (1_000_000, 6_000_000_000),
        }
    }

    /// The kind that follows this one in [`all_device_kinds`], wrapping.
    pub open spec fn spec_next(self) -> DeviceKind {
        match self {
            DeviceKind::RtlSdr => DeviceKind::HackRf,
            DeviceKind::HackRf => DeviceKind::RtlSdr,
        }
    }

    /// The kind that precedes this one in [`all_device_kinds`], wrapping.
    pub open spec fn spec_prev(self) -> DeviceKind {
        match self {
            DeviceKind::RtlSdr => DeviceKind::HackRf,
            DeviceKind::HackRf => DeviceKind::RtlSdr,
        }
    }

    pub fn next(self) -> (r: DeviceKind)
        ensures
            r == self.spec_next(),
    {
        match self {
            DeviceKind::RtlSdr => DeviceKind::HackRf,
            DeviceKind::HackRf => DeviceKind::RtlSdr,
        }
    }

    pub fn prev(self) -> (r: DeviceKind)
        ensures
            r == self.spec_prev(),
    {
        match self {
            DeviceKind::RtlSdr => DeviceKind::HackRf,
            DeviceKind::HackRf => DeviceKind::RtlSdr,
        }
    }
}

impl Default for DeviceKind {
    fn default() -> (r: DeviceKind)
        ensures
            r == DeviceKind::RtlSdr,
    {
        DeviceKind::RtlSdr
    }
}

/// The option tables have the advertised sizes.
pub proof fn lemma_table_sizes(d: DeviceKind)
    ensures
        d.sample_rates().len() == d.sample_rate_count(),
        d.gains_tenths().len() == d.gain_count(),
{
    reveal(DeviceKind::sample_rates);
    reveal(DeviceKind::gains_tenths);
}

/// `next` undoes `prev` and `prev` undoes `next`, for every device kind.
pub proof fn lemma_device_next_prev_inverse(d: DeviceKind)
    ensures
        d.spec_next().spec_prev() == d,
        d.spec_prev().spec_next() == d,
{
}

/// `next` and `prev` step one place forward and back in the cycling order
/// [`all_device_kinds`], wrapping at the ends.
pub proof fn lemma_device_cycle_order(d: DeviceKind)
    ensures
        all_device_kinds().len() == DEVICE_KIND_COUNT,
        0 <= d.index_of() < all_device_kinds().len(),
        all_device_kinds()[d.index_of()] == d,
        d.spec_next() == all_device_kinds()[(d.index_of() + 1) % (DEVICE_KIND_COUNT as int)],
        d.spec_prev() == all_device_kinds()[(d.index_of() + DEVICE_KIND_COUNT - 1) % (
        DEVICE_KIND_COUNT as int)],
{
    let all = all_device_kinds();
    assert(all[0] == DeviceKind::RtlSdr);
    assert(all[1] == DeviceKind::HackRf);
    assert((0int + 1) % 2 == 1);
    assert((1int + 1) % 2 == 0);
    assert((0int + 2 - 1) % 2 == 1);
    assert((1int + 2 - 1) % 2 == 0);
}

} // verus!
