//! Computations behind the display: the sample-rate label, the VFO digits
//! and the column windows that down-sample a spectrum frame.

use vstd::prelude::*;

use crate::app::model::{clamp_int, pow10};
use crate::app::vfo::lemma_pow10_monotone;
use crate::VFO_DIGITS;
use vstd::arithmetic::power2::{
    lemma2_to64, lemma2_to64_rest, lemma_pow2_adds, lemma_pow2_pos, lemma_pow2_subtracts, pow2,
};

verus! {

/// The character of a decimal digit.
pub open spec fn digit_char(d: nat) -> char {
    if d == 0 {
        '0'
    } else if d == 1 {
        '1'
    } else if d == 2 {
        '2'
    } else if d == 3 {
        '3'
    } else if d == 4 {
        '4'
    } else if d == 5 {
        '5'
    } else if d == 6 {
        '6'
    } else if d == 7 {
        '7'
    } else if d == 8 {
        '8'
    } else {
        '9'
    }
}

/// Decimal representation of `n`, without leading zeros.
pub open spec fn decimal(n: nat) -> Seq<char>
    decreases n,
{
    if n < 10 {
        seq![digit_char(n)]
    } else {
        decimal(n / 10) + seq![digit_char(n % 10)]
    }
}

/// Decimal representation of `n < 1000` padded with zeros to three digits.
pub open spec fn decimal3(n: nat) -> Seq<char> {
    if n < 10 {
        seq!['0', '0'] + decimal(n)
    } else if n < 100 {
        seq!['0'] + decimal(n)
    } else {
        decimal(n)
    }
}

/// Exponent of the power of two just below `rate / 10^6`: the largest
/// `e <= cap` with `10^6 * 2^e <= rate` (or 0). For `10^6 <= rate < 2^32`
/// and `cap == 12`, the quotient lies in `[2^e, 2^(e+1))`.
pub open spec fn quotient_exponent(rate: nat, cap: nat) -> nat
    decreases cap,
{
    if cap == 0 || 1_000_000 * pow2(cap) <= rate {
        cap
    } else {
        quotient_exponent(rate, (cap - 1) as nat)
    }
}

/// `rate / 10^6` in units of the last place of a 53-bit significand: the
/// quotient times `2^(52 - e)`.
pub open spec fn quotient_scaled(rate: nat) -> nat {
    rate * pow2((52 - quotient_exponent(rate, 12)) as nat)
}

/// The double nearest `rate / 10^6` (ties to an even significand) lies
/// above the exact quotient.
pub open spec fn quotient_double_above(rate: nat) -> bool {
    let n = quotient_scaled(rate);
    let r = n % 1_000_000;
    2 * r > 1_000_000 || (2 * r == 1_000_000 && (n / 1_000_000) % 2 == 1)
}

/// `rate / 10^6` is itself a double.
pub open spec fn quotient_double_exact(rate: nat) -> bool {
    quotient_scaled(rate) % 1_000_000 == 0
}

/// `rate / 10^6` rounded to thousandths as its double prints with three
/// decimals: to the nearest thousandth; at a half-thousandth, the side on
/// which the double lies, or the even thousandth when the double is exact.
pub open spec fn rate_thousandths(rate: nat) -> nat {
    let k = rate / 1000;
    let rem = rate % 1000;
    if rem > 500 || (rem == 500 && (quotient_double_above(rate) || (quotient_double_exact(rate)
        && k % 2 == 1))) {
        k + 1
    } else {
        k
    }
}

/// The Source popup's label for a sample rate: megasamples with three
/// decimals (as the quotient `rate / 10^6` prints in double precision) from
/// 1 MSPS on, whole kilosamples (truncated) below.
pub open spec fn sample_rate_label(rate: u32) -> Seq<char> {
    if rate >= 1_000_000 {
        let thousandths = rate_thousandths(rate as nat);
        decimal(thousandths / 1000) + seq!['.'] + decimal3(thousandths % 1000) + " MSPS"@
    } else {
        decimal(rate as nat / 1000) + " kSPS"@
    }
}

/// At a half-thousandth, whether the three-decimal print of the double
/// `rate / 10^6` rounds up.
fn half_thousandth_rounds_up(rate: u32) -> (r: bool)
    requires
        rate >= 1_000_000,
    ensures
        r == (quotient_double_above(rate as nat) || (quotient_double_exact(rate as nat) && (
        rate as nat / 1000) % 2 == 1)),
{
    proof {
        lemma2_to64();
        lemma2_to64_rest();
    }
    let mut e: u64 = 12;
    let mut p: u64 = 4096;
    while e > 0 && 1_000_000 * p > rate as u64
        invariant
            e <= 12,
            0 < p <= 4096,
            p == pow2(e as nat),
            quotient_exponent(rate as nat, 12) == quotient_exponent(rate as nat, e as nat),
        decreases e,
    {
        proof {
            lemma2_to64();
            lemma_pow2_adds((e - 1) as nat, 1);
            lemma_pow2_pos((e - 1) as nat);
        }
        p = p / 2;
        e = e - 1;
    }
    proof {
        lemma_pow2_subtracts(e as nat, 52);
        lemma_pow2_pos(e as nat);
    }
    let m: u64 = 4_503_599_627_370_496 / p;
    assert(m == pow2((52 - e) as nat));
    assert(m <= 4_503_599_627_370_496);
    assert((rate as nat) * (m as nat) <= 4_294_967_295 * 4_503_599_627_370_496) by (nonlinear_arith)
        requires
            rate <= 4_294_967_295,
            m <= 4_503_599_627_370_496,
    ;
    let n: u128 = rate as u128 * m as u128;
    assert(n == quotient_scaled(rate as nat));
    let rem = n % 1_000_000;
    let t = n / 1_000_000;
    let above = 2 * rem > 1_000_000 || (2 * rem == 1_000_000 && t % 2 == 1);
    let exact = rem == 0;
    above || (exact && (rate / 1000) % 2 == 1)
}

fn digit_str(d: u64) -> (r: &'static str)
    requires
        d < 10,
    ensures
        r@ == seq![digit_char(d as nat)],
{
    proof {
        reveal_strlit("0");
        reveal_strlit("1");
        reveal_strlit("2");
        reveal_strlit("3");
        reveal_strlit("4");
        reveal_strlit("5");
        reveal_strlit("6");
        reveal_strlit("7");
        reveal_strlit("8");
        reveal_strlit("9");
    }
    let r = if d == 0 {
        "0"
    } else if d == 1 {
        "1"
    } else if d == 2 {
        "2"
    } else if d == 3 {
        "3"
    } else if d == 4 {
        "4"
    } else if d == 5 {
        "5"
    } else if d == 6 {
        "6"
    } else if d == 7 {
        "7"
    } else if d == 8 {
        "8"
    } else {
        "9"
    };
    assert(r@ =~= seq![digit_char(d as nat)]);
    r
}

/// Append the decimal representation of `n` to `s`.
fn push_decimal(s: &mut String, n: u64)
    ensures
        final(s)@ == old(s)@ + decimal(n as nat),
    decreases n,
{
    if n >= 10 {
        push_decimal(s, n / 10);
    }
    s.append(digit_str(n % 10));
    assert(final(s)@ =~= old(s)@ + decimal(n as nat));
}

/// Format a sample rate for the Source popup, e.g. `1.024 MSPS` or
/// `250 kSPS`.
pub fn fmt_sample_rate(rate: u32) -> (r: String)
    ensures
        r@ == sample_rate_label(rate),
{
    let mut s = String::new();
    if rate >= 1_000_000 {
        let k: u64 = rate as u64 / 1000;
        let rem: u64 = rate as u64 % 1000;
        let up = if rem > 500 {
            true
        } else if rem < 500 {
            false
        } else {
            half_thousandth_rounds_up(rate)
        };
        let thousandths: u64 = if up {
            k + 1
        } else {
            k
        };
        assert(thousandths == rate_thousandths(rate as nat));
        push_decimal(&mut s, thousandths / 1000);
        s.append(".");
        let frac = thousandths % 1000;
        if frac < 10 {
            s.append("00");
        } else if frac < 100 {
            s.append("0");
        }
        push_decimal(&mut s, frac);
        s.append(" MSPS");
        proof {
            reveal_strlit(".");
            reveal_strlit("00");
            reveal_strlit("0");
        }
        assert(s@ =~= sample_rate_label(rate));
    } else {
        push_decimal(&mut s, rate as u64 / 1000);
        s.append(" kSPS");
        assert(s@ =~= sample_rate_label(rate));
    }
    s
}

/// The `i`-th of the VFO's digits, most significant first.
pub open spec fn vfo_digit(freq: u64, i: int) -> int {
    (freq as int / pow10((VFO_DIGITS - 1 - i) as nat) as int) % 10
}

/// The VFO's ten digits of `freq`, most significant first (leading zeros
/// included); of a frequency above ten digits, the ten lowest.
pub fn vfo_digits(freq: u64) -> (r: Vec<u8>)
    ensures
        r@.len() == VFO_DIGITS,
        forall|i: int| 0 <= i < VFO_DIGITS ==> r@[i] as int == vfo_digit(freq, i),
{
    let mut digits: Vec<u8> = Vec::new();
    let mut divisor: u64 = 1_000_000_000;
    proof {
        reveal_with_fuel(pow10, 10);
    }
    let mut i: usize = 0;
    while i < VFO_DIGITS
        invariant
            i <= VFO_DIGITS,
            digits@.len() == i,
            i < VFO_DIGITS ==> divisor as nat == pow10((VFO_DIGITS - 1 - i) as nat),
            forall|j: int| 0 <= j < i ==> digits@[j] as int == vfo_digit(freq, j),
        decreases VFO_DIGITS - i,
    {
        proof {
            lemma_pow10_monotone(0, (VFO_DIGITS - 1 - i) as nat);
        }
        let d = (freq / divisor) % 10;
        digits.push(d as u8);
        if i + 1 < VFO_DIGITS {
            proof {
                let k = (VFO_DIGITS - 2 - i) as nat;
                let p = pow10(k);
                assert(pow10(k + 1) == 10 * p);
                assert((10 * p) / 10 == p) by (nonlinear_arith);
            }
            divisor = divisor / 10;
        }
        i += 1;
    }
    digits
}

/// Column window `i` of a down-sampled frame: the range of bins
/// `[lo, hi)` whose peak the column shows (empty where the window falls
/// outside the frame). Chunks hold `len / width` bins, and the chunk of
/// column `width / 2` starts at `center_bin`.
pub open spec fn column_window(len: nat, width: nat, center_bin: nat, i: int) -> (int, int) {
    let cs = (len / width) as int;
    let start = center_bin - (width / 2) as int * cs;
    let cstart = start + i * cs;
    (clamp_int(cstart, 0, len as int), clamp_int(cstart + cs, 0, len as int))
}

/// The window of the middle column starts exactly at the centre bin (when
/// that bin lies in the frame).
pub proof fn lemma_center_column(len: nat, width: nat, center_bin: nat)
    requires
        width > 0,
        center_bin <= len,
    ensures
        column_window(len, width, center_bin, (width / 2) as int).0 == center_bin,
{
}

/// Plan the down-sampling of a frame of `data_len` bins to `target_width`
/// columns, with the bin `center_bin` at the middle column: the bin window
/// of every column, or `None` when there are fewer bins than columns (each
/// bin then gets a column of its own). No columns for an empty frame or a
/// zero width.
pub fn downsample_windows(data_len: usize, target_width: usize, center_bin: usize) -> (r: Option<
    Vec<(usize, usize)>,
>)
    requires
        center_bin + data_len <= isize::MAX,
    ensures
        (target_width == 0 || data_len == 0) ==> (r is Some && r->0@.len() == 0),
        (target_width > 0 && data_len > 0) ==> (r is None <==> data_len < target_width),
        r matches Some(w) ==> (target_width > 0 && data_len > 0) ==> {
            &&& w@.len() == target_width
            &&& forall|i: int|
                0 <= i < target_width ==> {
                    &&& w@[i].0 as int == column_window(
                        data_len as nat,
                        target_width as nat,
                        center_bin as nat,
                        i,
                    ).0
                    &&& w@[i].1 as int == column_window(
                        data_len as nat,
                        target_width as nat,
                        center_bin as nat,
                        i,
                    ).1
                }
        },
{
    let mut windows: Vec<(usize, usize)> = Vec::new();
    if target_width == 0 || data_len == 0 {
        return Some(windows);
    }
    let chunk_size = data_len / target_width;
    if chunk_size == 0 {
        proof {
            assert(data_len < target_width) by (nonlinear_arith)
                requires
                    data_len / target_width == 0,
                    target_width > 0,
            ;
        }
        return None;
    }
    proof {
        assert(data_len >= target_width) by (nonlinear_arith)
            requires
                data_len / target_width > 0,
                target_width > 0,
        ;
    }
    let n = data_len as isize;
    let cs = chunk_size as isize;
    let half = target_width / 2;
    proof {
        assert(chunk_size * target_width <= data_len) by (nonlinear_arith)
            requires
                chunk_size == data_len / target_width,
                target_width > 0,
        ;
        assert(half * chunk_size <= data_len) by (nonlinear_arith)
            requires
                chunk_size * target_width <= data_len,
                half <= target_width,
        ;
    }
    let half_span = (half * chunk_size) as isize;
    let start = center_bin as isize - half_span;
    let mut cstart = start;
    let mut i: usize = 0;
    while i < target_width
        invariant
            0 < target_width,
            0 < chunk_size,
            chunk_size == data_len / target_width,
            chunk_size * target_width <= data_len,
            center_bin + data_len <= isize::MAX,
            n == data_len,
            cs == chunk_size,
            start == center_bin - half * chunk_size,
            half == target_width / 2,
            i <= target_width,
            cstart == start + i * chunk_size,
            windows@.len() == i,
            forall|j: int|
                0 <= j < i ==> {
                    &&& windows@[j].0 as int == column_window(
                        data_len as nat,
                        target_width as nat,
                        center_bin as nat,
                        j,
                    ).0
                    &&& windows@[j].1 as int == column_window(
                        data_len as nat,
                        target_width as nat,
                        center_bin as nat,
                        j,
                    ).1
                },
        decreases target_width - i,
    {
        proof {
            assert(i * chunk_size + chunk_size <= data_len) by (nonlinear_arith)
                requires
                    i < target_width,
                    chunk_size * target_width <= data_len,
            ;
        }
        let cend = cstart + cs;
        let lo = if cstart < 0 {
            0
        } else if cstart > n {
            n
        } else {
            cstart
        };
        let hi = if cend < 0 {
            0
        } else if cend > n {
            n
        } else {
            cend
        };
        windows.push((lo as usize, hi as usize));
        proof {
            assert((i + 1) * chunk_size == i * chunk_size + chunk_size) by (nonlinear_arith);
        }
        cstart = cend;
        i += 1;
    }
    Some(windows)
}

} // verus!
