//! Fixed-point percentages.
//!
//! Every percentage the library reports is a whole number of millionths of
//! a percent, rounded down. Classification of validators never reads such a
//! rounded number: it compares the underlying slot counts exactly (see
//! [`rate_at_least`] and [`rate_above`]).

use vstd::prelude::*;
use vstd::string::StringExecFns;
use crate::text::{decimal_text, padded_decimal_text, push_decimal, push_padded_decimal};

verus! {

/// Millionths of a percent in one percent.
pub const MICROS_PER_PERCENT: u128 = 1_000_000;

/// Millionths of a percent in the whole (one hundred percent).
pub const MICROS_PER_WHOLE: u128 = 100_000_000;

/// A percentage, held as millionths of a percent.
#[derive(Clone, Copy, Debug, PartialEq, Eq, Structural, PartialOrd, Ord, Hash)]
pub struct Percent {
    pub micros: u128,
}

/// `part` out of `whole` in millionths of a percent, rounded down; zero when
/// there is no whole.
pub open spec fn ratio_micros(part: int, whole: int) -> int {
    if whole <= 0 {
        0
    } else {
        part * 100_000_000 / whole
    }
}

/// Whether the rate `missed / slots` is at least `pct` percent, decided on
/// the counts themselves. A validator without slots has rate zero.
pub open spec fn rate_at_least(missed: int, slots: int, pct: int) -> bool {
    if slots <= 0 {
        0 >= pct
    } else {
        100 * missed >= pct * slots
    }
}

/// Whether the rate `missed / slots` is strictly above `pct` percent, decided
/// on the counts themselves. A validator without slots has rate zero.
pub open spec fn rate_above(missed: int, slots: int, pct: int) -> bool {
    if slots <= 0 {
        0 > pct
    } else {
        100 * missed > pct * slots
    }
}

/// Ten to the power `k`.
pub open spec fn pow10(k: nat) -> nat
    decreases k,
{
    if k == 0 {
        1
    } else {
        10 * pow10((k - 1) as nat)
    }
}

/// `micros` counted in units of `unit` millionths, rounded half up.
pub open spec fn round_half_up(micros: nat, unit: nat) -> nat {
    if unit > 1 && 2 * (micros % unit) >= unit {
        micros / unit + 1
    } else {
        micros / unit
    }
}

/// The text of a percentage with `decimals` digits after the point (at most
/// six), rounded half up, without a percent sign.
pub open spec fn fixed_text(micros: nat, decimals: nat) -> Seq<char> {
    let shown = round_half_up(micros, pow10((6 - decimals) as nat));
    let whole = shown / pow10(decimals);
    if decimals == 0 {
        decimal_text(whole)
    } else {
        decimal_text(whole) + seq!['.'] + padded_decimal_text(shown % pow10(decimals), decimals)
    }
}

/// The index that nearest-rank selection picks among `len` ascending
/// samples for the percentile `p`: the floor of `(len - 1) * p / 100`, never
/// past the last sample.
pub open spec fn nearest_rank_index(len: nat, p: nat) -> nat {
    if len == 0 {
        0
    } else if (len - 1) * p / 100 >= len {
        (len - 1) as nat
    } else {
        ((len - 1) * p / 100) as nat
    }
}

/// The sample that nearest-rank selection picks, zero for an empty sample.
pub open spec fn nearest_rank(samples: Seq<Percent>, p: nat) -> Percent {
    if samples.len() == 0 {
        Percent { micros: 0 }
    } else {
        samples[nearest_rank_index(samples.len(), p) as int]
    }
}

/// Whether the samples stand in ascending order.
pub open spec fn ascending(samples: Seq<Percent>) -> bool {
    forall|i: int, j: int| 0 <= i <= j < samples.len() ==> samples[i].micros <= samples[j].micros
}

/// The powers of ten up to a million.
proof fn lemma_pow10_values()
    ensures
        pow10(0) == 1,
        pow10(1) == 10,
        pow10(2) == 100,
        pow10(3) == 1_000,
        pow10(4) == 10_000,
        pow10(5) == 100_000,
        pow10(6) == 1_000_000,
{
    reveal_with_fuel(pow10, 7);
}

/// A share of a whole never exceeds one hundred percent, and a share of
/// nothing is zero.
pub proof fn lemma_ratio_micros_bounds(part: int, whole: int)
    requires
        0 <= part,
    ensures
        0 <= ratio_micros(part, whole),
        part <= whole ==> ratio_micros(part, whole) <= 100_000_000,
        part == 0 ==> ratio_micros(part, whole) == 0,
        (whole > 0 && part == whole) ==> ratio_micros(part, whole) == 100_000_000,
        ratio_micros(part, whole) <= part * 100_000_000,
{
    if whole > 0 {
        assert(0 <= part * 100_000_000 / whole) by (nonlinear_arith)
            requires
                0 <= part,
                whole > 0,
        ;
        assert(part * 100_000_000 / whole <= part * 100_000_000) by (nonlinear_arith)
            requires
                0 <= part,
                whole > 0,
        ;
        if part <= whole {
            assert(part * 100_000_000 / whole <= 100_000_000) by (nonlinear_arith)
                requires
                    0 <= part <= whole,
                    whole > 0,
            ;
        }
        if part == whole {
            assert(part * 100_000_000 / whole == 100_000_000) by (nonlinear_arith)
                requires
                    part == whole,
                    whole > 0,
            ;
        }
    }
}

/// A rounded-down rate reaches a whole number of percent exactly when the
/// exact rate does.
pub proof fn lemma_ratio_micros_at_least(missed: int, slots: int, pct: int)
    requires
        0 <= missed,
        0 <= pct,
    ensures
        ratio_micros(missed, slots) >= pct * 1_000_000 <==> rate_at_least(missed, slots, pct),
{
    if slots > 0 {
        let q = missed * 100_000_000 / slots;
        assert(q >= pct * 1_000_000 <==> missed * 100_000_000 >= pct * 1_000_000 * slots)
            by (nonlinear_arith)
            requires
                q == missed * 100_000_000 / slots,
                slots > 0,
        ;
        assert(missed * 100_000_000 >= pct * 1_000_000 * slots <==> 100 * missed >= pct * slots)
            by (nonlinear_arith);
    }
}

/// Nearest-rank selection on ascending samples grows with the percentile.
pub proof fn lemma_percentile_monotonic(samples: Seq<Percent>, lower: nat, higher: nat)
    requires
        ascending(samples),
        lower < higher,
    ensures
        nearest_rank(samples, lower).micros <= nearest_rank(samples, higher).micros,
{
    let len = samples.len();
    if len > 0 {
        let a = (len - 1) * lower / 100;
        let b = (len - 1) * higher / 100;
        assert(a <= b) by (nonlinear_arith)
            requires
                a == (len - 1) * lower / 100,
                b == (len - 1) * higher / 100,
                lower < higher,
                len >= 1,
        ;
        assert(0 <= a) by (nonlinear_arith)
            requires
                a == (len - 1) * lower / 100,
                len >= 1,
        ;
        let i = nearest_rank_index(len, lower);
        let j = nearest_rank_index(len, higher);
        assert(i <= j < len);
    }
}

impl Percent {
    /// The value in millionths of a percent.
    pub open spec fn value(self) -> nat {
        self.micros as nat
    }

    /// Zero percent.
    pub fn zero() -> (p: Percent)
        ensures
            p.micros == 0,
    {
        Percent { micros: 0 }
    }

    /// A whole number of percent.
    pub fn from_whole(percent: u64) -> (p: Percent)
        ensures
            p.micros == percent * 1_000_000,
    {
        Percent { micros: (percent as u128) * MICROS_PER_PERCENT }
    }

    /// `part` out of `whole`, rounded down to a millionth of a percent; zero
    /// when `whole` is zero.
    pub fn of(part: u64, whole: u64) -> (p: Percent)
        ensures
            p.micros == ratio_micros(part as int, whole as int),
    {
        if whole == 0 {
            Percent { micros: 0 }
        } else {
            Percent { micros: (part as u128) * MICROS_PER_WHOLE / (whole as u128) }
        }
    }

    /// The text of this percentage with `decimals` digits after the point,
    /// rounded half up, without a percent sign.
    pub fn to_fixed(&self, decimals: u8) -> (s: String)
        requires
            decimals <= 6,
        ensures
            s@ == fixed_text(self.micros as nat, decimals as nat),
    {
        let mut s = String::new();
        self.push_fixed(&mut s, decimals);
        assert(s@ =~= fixed_text(self.micros as nat, decimals as nat));
        s
    }

    /// Appends [`fixed_text`] of this percentage to `out`.
    pub fn push_fixed(&self, out: &mut String, decimals: u8)
        requires
            decimals <= 6,
        ensures
            final(out)@ == old(out)@ + fixed_text(self.micros as nat, decimals as nat),
    {
        proof {
            lemma_pow10_values();
        }
        let unit: u128 = power_of_ten(6 - decimals);
        let scale: u128 = power_of_ten(decimals);
        let floor: u128 = self.micros / unit;
        let rest: u128 = self.micros % unit;
        let shown: u128 = if unit > 1 && 2 * rest >= unit {
            assert(floor <= u128::MAX / 10) by (nonlinear_arith)
                requires
                    floor == self.micros / unit,
                    unit >= 10,
                    self.micros <= u128::MAX,
            ;
            floor + 1
        } else {
            floor
        };
        assert(shown == round_half_up(self.micros as nat, unit as nat));
        push_decimal(out, shown / scale);
        if decimals > 0 {
            proof {
                reveal_strlit(".");
            }
            out.append(".");
            push_padded_decimal(out, shown % scale, decimals);
            assert(final(out)@ =~= old(out)@ + fixed_text(self.micros as nat, decimals as nat));
        }
    }
}

fn power_of_ten(k: u8) -> (r: u128)
    requires
        k <= 6,
    ensures
        r == pow10(k as nat),
        r >= 1,
        k >= 1 ==> r >= 10,
{
    proof {
        lemma_pow10_values();
    }
    if k == 0 {
        1
    } else if k == 1 {
        10
    } else if k == 2 {
        100
    } else if k == 3 {
        1_000
    } else if k == 4 {
        10_000
    } else if k == 5 {
        100_000
    } else {
        1_000_000
    }
}

/// The index that nearest-rank selection picks among `len` ascending samples.
pub fn percentile_index(len: usize, percentile: u8) -> (index: usize)
    ensures
        index == nearest_rank_index(len as nat, percentile as nat),
        len > 0 ==> index < len,
{
    if len == 0 {
        0
    } else {
        assert((len - 1) * percentile <= 0xffff_ffff_ffff_ffff * 255) by (nonlinear_arith)
            requires
                0 < len <= 0xffff_ffff_ffff_ffff,
                percentile <= 255,
        ;
        let scaled: u128 = ((len - 1) as u128) * (percentile as u128) / 100;
        if scaled >= len as u128 {
            len - 1
        } else {
            scaled as usize
        }
    }
}

/// The value at the given percentile of ascending samples by nearest rank;
/// zero for an empty sample.
pub fn calculate_percentile(sorted_values: &Vec<Percent>, percentile: u8) -> (value: Percent)
    ensures
        value == nearest_rank(sorted_values@, percentile as nat),
{
    if sorted_values.len() == 0 {
        Percent { micros: 0 }
    } else {
        let index = percentile_index(sorted_values.len(), percentile);
        sorted_values[index]
    }
}

} // verus!
