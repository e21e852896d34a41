use std::collections::VecDeque;

use sdrrat::command::{MODE_AM, MODE_NBFM, MODE_OFF, MODE_WBFM};
use sdrrat::display::{downsample_windows, fmt_sample_rate, vfo_digits};
use sdrrat::dsp_plan::{
    decimation, narrow_chain_active, plan_chains, wbfm_chain_active, ChainPlan,
    NB_TARGET_RATE, WBFM_TARGET_RATE,
};
use sdrrat::frames::drain_frames;
use sdrrat::history::push_waterfall_row;
use sdrrat::WATERFALL_MAX_ROWS;

#[test]
fn sample_rate_labels() {
    assert_eq!(fmt_sample_rate(250_000), "250 kSPS");
    assert_eq!(fmt_sample_rate(999_999), "999 kSPS");
    assert_eq!(fmt_sample_rate(1_024_000), "1.024 MSPS");
    assert_eq!(fmt_sample_rate(2_000_000), "2.000 MSPS");
    assert_eq!(fmt_sample_rate(1_050_000), "1.050 MSPS");
    assert_eq!(fmt_sample_rate(12_500_000), "12.500 MSPS");
    assert_eq!(fmt_sample_rate(1_000_499), "1.000 MSPS");
    assert_eq!(fmt_sample_rate(1_000_501), "1.001 MSPS");
    assert_eq!(fmt_sample_rate(0), "0 kSPS");
    assert_eq!(fmt_sample_rate(1_000_500), "1.000 MSPS");
    assert_eq!(
        fmt_sample_rate(1_999_999_500),
        format!("{:.3} MSPS", 1_999_999_500f64 / 1_000_000.0)
    );
    assert_eq!(fmt_sample_rate(1_999_999_501), "2000.000 MSPS");
}

#[test]
fn sample_rate_labels_agree_with_float_formatting() {
    for rate in [250_000u32, 1_024_000, 1_536_000, 2_560_000, 20_000_000, 1_234_567, 3_999_999] {
        let expected = if rate >= 1_000_000 {
            format!("{:.3} MSPS", rate as f64 / 1_000_000.0)
        } else {
            format!("{} kSPS", rate / 1_000)
        };
        assert_eq!(fmt_sample_rate(rate), expected);
    }
}

#[test]
fn sample_rate_ties_agree_with_float_formatting() {
    let mut k: u32 = 1_000;
    while k < 4_294_967 {
        for rate in [k * 1000 + 500, k * 1000 + 499, k * 1000 + 501, k * 1000] {
            let expected = format!("{:.3} MSPS", rate as f64 / 1_000_000.0);
            assert_eq!(fmt_sample_rate(rate), expected, "rate {}", rate);
        }
        k += if k < 200_000 { 1 } else { 97 };
    }
    for rate in [1_062_500u32, 1_187_500, 2_062_500, 4_294_967_295, 4_294_967_000] {
        let expected = format!("{:.3} MSPS", rate as f64 / 1_000_000.0);
        assert_eq!(fmt_sample_rate(rate), expected, "rate {}", rate);
    }
}

#[test]
fn vfo_digit_split() {
    assert_eq!(vfo_digits(100_100_000), vec![0, 1, 0, 0, 1, 0, 0, 0, 0, 0]);
    assert_eq!(vfo_digits(9_999_999_999), vec![9; 10]);
    assert_eq!(vfo_digits(0), vec![0; 10]);
    assert_eq!(vfo_digits(1_766_000_000), vec![1, 7, 6, 6, 0, 0, 0, 0, 0, 0]);
    assert_eq!(vfo_digits(12_345_678_901), vec![2, 3, 4, 5, 6, 7, 8, 9, 0, 1]);
}

#[test]
fn downsample_plan_edges() {
    assert_eq!(downsample_windows(1024, 0, 512), Some(vec![]));
    assert_eq!(downsample_windows(0, 10, 0), Some(vec![]));
    assert_eq!(downsample_windows(5, 10, 2), None);
}

#[test]
fn downsample_plan_centres_the_middle_column() {
    let w = downsample_windows(1024, 100, 512).unwrap();
    assert_eq!(w.len(), 100);
    assert_eq!(w[0], (12, 22));
    assert_eq!(w[50], (512, 522));
    assert_eq!(w[99], (1002, 1012));
    assert_eq!(
        downsample_windows(10, 4, 5),
        Some(vec![(1, 3), (3, 5), (5, 7), (7, 9)])
    );
    assert_eq!(
        downsample_windows(10, 4, 0),
        Some(vec![(0, 0), (0, 0), (0, 2), (2, 4)])
    );
    assert_eq!(
        downsample_windows(10, 4, 9),
        Some(vec![(5, 7), (7, 9), (9, 10), (10, 10)])
    );
}

#[test]
fn chain_planning() {
    assert_eq!(
        plan_chains(1_024_000),
        ChainPlan { wbfm_decim: 4, wbfm_rate: 256_000, nb_decim: 32, nb_rate: 32_000 }
    );
    assert_eq!(
        plan_chains(2_400_000),
        ChainPlan { wbfm_decim: 9, wbfm_rate: 266_666, nb_decim: 75, nb_rate: 32_000 }
    );
    assert_eq!(
        plan_chains(250_000),
        ChainPlan { wbfm_decim: 1, wbfm_rate: 250_000, nb_decim: 8, nb_rate: 31_250 }
    );
    assert_eq!(decimation(384_000, WBFM_TARGET_RATE), 2);
    assert_eq!(decimation(100, WBFM_TARGET_RATE), 1);
    assert_eq!(decimation(20_000_000, NB_TARGET_RATE), 625);
}

#[test]
fn decimation_matches_float_rounding() {
    for rate in [250_000u32, 1_024_000, 1_536_000, 1_792_000, 1_920_000, 2_048_000, 2_400_000,
        2_560_000, 2_000_000, 4_000_000, 8_000_000, 10_000_000, 12_500_000, 16_000_000, 20_000_000] {
        for target in [WBFM_TARGET_RATE, NB_TARGET_RATE] {
            let f = ((rate as f64) / (target as f64)).round().max(1.0) as u32;
            assert_eq!(decimation(rate, target), f);
        }
    }
}

#[test]
fn one_chain_at_a_time() {
    assert!(wbfm_chain_active(MODE_WBFM));
    assert!(!wbfm_chain_active(MODE_NBFM));
    assert!(narrow_chain_active(MODE_NBFM));
    assert!(narrow_chain_active(MODE_AM));
    assert!(!narrow_chain_active(MODE_WBFM));
    assert!(!wbfm_chain_active(MODE_OFF) && !narrow_chain_active(MODE_OFF));
}

#[test]
fn frames_are_batched() {
    let mut buf: Vec<u32> = (1..=10).collect();
    let frames = drain_frames(&mut buf, 4);
    assert_eq!(frames, vec![vec![1, 2, 3, 4], vec![5, 6, 7, 8]]);
    assert_eq!(buf, vec![9, 10]);
    buf.extend([11, 12]);
    let frames = drain_frames(&mut buf, 4);
    assert_eq!(frames, vec![vec![9, 10, 11, 12]]);
    assert!(buf.is_empty());
    let frames = drain_frames(&mut buf, 4);
    assert!(frames.is_empty());
}

#[test]
fn waterfall_keeps_the_newest_rows() {
    let mut history: VecDeque<u32> = VecDeque::new();
    for i in 0..(WATERFALL_MAX_ROWS as u32 + 1) {
        push_waterfall_row(&mut history, i);
    }
    assert_eq!(history.len(), WATERFALL_MAX_ROWS);
    assert_eq!(history[0], WATERFALL_MAX_ROWS as u32);
    assert_eq!(history[WATERFALL_MAX_ROWS - 1], 1);
}
