//! Rate planning of the demodulation chains: how far each chain decimates
//! the device's sample stream, and which chain the radio mode enables.

use vstd::prelude::*;

use crate::command::{MODE_AM, MODE_NBFM, MODE_WBFM};

verus! {

/// Audio output rate in Hz.
pub const AUDIO_RATE: u32 = 48_000;

/// Target intermediate rate of the WBFM chain in Hz.
pub const WBFM_TARGET_RATE: u32 = 256_000;

/// Target intermediate rate of the narrow (NBFM / AM) chain in Hz.
pub const NB_TARGET_RATE: u32 = 32_000;

/// `sample_rate / target` rounded to the nearest integer (halves up), but
/// at least one.
pub open spec fn spec_decimation(sample_rate: u32, target: u32) -> nat {
    let q = (sample_rate as nat + target as nat / 2) / (target as nat);
    if q < 1 {
        1
    } else {
        q
    }
}

/// The decimation factor that brings `sample_rate` closest to `target`;
/// one when the sample rate is already below the target.
pub fn decimation(sample_rate: u32, target: u32) -> (r: u32)
    requires
        target > 0,
    ensures
        r as nat == spec_decimation(sample_rate, target),
        r >= 1,
{
    let num: u64 = sample_rate as u64 + target as u64 / 2;
    let q64: u64 = num / target as u64;
    proof {
        assert(q64 <= u32::MAX) by (nonlinear_arith)
            requires
                q64 == num / (target as u64),
                num == sample_rate + target / 2,
                target > 0,
                sample_rate <= u32::MAX,
        ;
    }
    let q = q64 as u32;
    if q < 1 {
        1
    } else {
        q
    }
}

/// Decimation factors and resulting rates of both chains.
#[derive(Debug, Clone, Copy, PartialEq, Eq, Structural)]
pub struct ChainPlan {
    pub wbfm_decim: u32,
    pub wbfm_rate: u32,
    pub nb_decim: u32,
    pub nb_rate: u32,
}

/// Plan both chains for a device running at `sample_rate`.
pub fn plan_chains(sample_rate: u32) -> (r: ChainPlan)
    ensures
        r.wbfm_decim as nat == spec_decimation(sample_rate, WBFM_TARGET_RATE),
        r.wbfm_rate == sample_rate / r.wbfm_decim,
        r.nb_decim as nat == spec_decimation(sample_rate, NB_TARGET_RATE),
        r.nb_rate == sample_rate / r.nb_decim,
{
    let wbfm_decim = decimation(sample_rate, WBFM_TARGET_RATE);
    let nb_decim = decimation(sample_rate, NB_TARGET_RATE);
    ChainPlan {
        wbfm_decim,
        wbfm_rate: sample_rate / wbfm_decim,
        nb_decim,
        nb_rate: sample_rate / nb_decim,
    }
}

/// The WBFM chain produces audio only in WBFM mode.
pub fn wbfm_chain_active(mode_code: u8) -> (r: bool)
    ensures
        r == (mode_code == MODE_WBFM),
{
    mode_code == MODE_WBFM
}

/// The narrow chain produces audio only in NBFM and AM modes.
pub fn narrow_chain_active(mode_code: u8) -> (r: bool)
    ensures
        r == (mode_code == MODE_NBFM || mode_code == MODE_AM),
{
    mode_code == MODE_NBFM || mode_code == MODE_AM
}

/// At most one chain is audible at a time, so the mixer never adds two
/// demodulated signals.
pub proof fn lemma_chains_exclusive(mode_code: u8)
    ensures
        !((mode_code == MODE_WBFM) && (mode_code == MODE_NBFM || mode_code == MODE_AM)),
{
}

} // verus!
