//! Pure threshold evaluation: classify one observation against a baseline.
//!
//! Metrics are carried as integer lamports, and a multiplier is an exact
//! rational `num / den`, so the boundary comparisons are exact: no rounding
//! can move a value across a threshold. Comparing raw lamports against
//! `baseline * multiplier` classifies the derived (scaled-down) metric just
//! as well, because the scale factor divides both sides out.

use vstd::prelude::*;
use crate::errors::ErrorKind;

verus! {

/// The classification of a single observation.
#[derive(Clone, Copy, Debug, PartialEq, Eq, Structural)]
pub enum Verdict {
    /// The observation is strictly inside both thresholds: keep watching.
    Continue,
    /// The observation reached or exceeded `baseline * upper`.
    ExitHigh,
    /// The observation reached or fell below `baseline * lower`.
    ExitLow,
}

/// A threshold multiplier, held as the exact rational `num / den`.
#[derive(Clone, Copy, Debug, PartialEq, Eq, Structural)]
pub struct Multiplier {
    pub num: u64,
    pub den: u64,
}

/// `(a as int) * (b as int)` stays within `u128`.
proof fn lemma_mul_u64_fits_u128(a: u64, b: u64)
    by (nonlinear_arith)
    ensures
        (a as int) * (b as int) <= 0xffff_ffff_ffff_ffff_ffff_ffff_ffff_ffff,
        (a as int) * (b as int) >= 0,
{
}

impl Multiplier {
    /// A multiplier is well formed when its denominator is positive.
    pub open spec fn wf(self) -> bool {
        self.den > 0
    }

    /// `value >= baseline * (num / den)`, stated without division.
    pub open spec fn spec_at_or_above(self, value: u64, baseline: u64) -> bool {
        (value as int) * (self.den as int) >= (baseline as int) * (self.num as int)
    }

    /// `value <= baseline * (num / den)`, stated without division.
    pub open spec fn spec_at_or_below(self, value: u64, baseline: u64) -> bool {
        (value as int) * (self.den as int) <= (baseline as int) * (self.num as int)
    }

    /// Does `value` reach or exceed `baseline` times this multiplier?
    pub fn at_or_above(self, value: u64, baseline: u64) -> (r: bool)
        ensures
            r == self.spec_at_or_above(value, baseline),
    {
        proof {
            lemma_mul_u64_fits_u128(value, self.den);
            lemma_mul_u64_fits_u128(baseline, self.num);
        }
        (value as u128) * (self.den as u128) >= (baseline as u128) * (self.num as u128)
    }

    /// Does `value` reach or fall below `baseline` times this multiplier?
    pub fn at_or_below(self, value: u64, baseline: u64) -> (r: bool)
        ensures
            r == self.spec_at_or_below(value, baseline),
    {
        proof {
            lemma_mul_u64_fits_u128(value, self.den);
            lemma_mul_u64_fits_u128(baseline, self.num);
        }
        (value as u128) * (self.den as u128) <= (baseline as u128) * (self.num as u128)
    }
}

/// The default upper threshold multiplier, 1.8 as the rational 9/5.
pub fn default_upper() -> (m: Multiplier)
    ensures
        m == (Multiplier { num: 9u64, den: 5u64 }),
{
    Multiplier { num: 9, den: 5 }
}

/// The default lower threshold multiplier, 0.75 as the rational 3/4.
pub fn default_lower() -> (m: Multiplier)
    ensures
        m == (Multiplier { num: 3u64, den: 4u64 }),
{
    Multiplier { num: 3, den: 4 }
}

/// The verdict for one observation: exit-high first, then exit-low, else
/// continue. Equality at either boundary counts as firing.
pub open spec fn spec_verdict(value: u64, baseline: u64, upper: Multiplier, lower: Multiplier) -> Verdict {
    if upper.spec_at_or_above(value, baseline) {
        Verdict::ExitHigh
    } else if lower.spec_at_or_below(value, baseline) {
        Verdict::ExitLow
    } else {
        Verdict::Continue
    }
}

/// Classify one observation against a baseline already known positive.
pub fn classify(value: u64, baseline: u64, upper: Multiplier, lower: Multiplier) -> (v: Verdict)
    requires
        upper.wf(),
        lower.wf(),
        baseline > 0,
    ensures
        v == spec_verdict(value, baseline, upper, lower),
{
    if upper.at_or_above(value, baseline) {
        Verdict::ExitHigh
    } else if lower.at_or_below(value, baseline) {
        Verdict::ExitLow
    } else {
        Verdict::Continue
    }
}

/// Classify one observation against the baseline. A non-positive baseline is
/// rejected rather than classified, since no verdict against it is meaningful.
pub fn evaluate(value: u64, baseline: u64, upper: Multiplier, lower: Multiplier) -> (r: Result<Verdict, ErrorKind>)
    requires
        upper.wf(),
        lower.wf(),
    ensures
        baseline == 0 ==> r == Result::<Verdict, ErrorKind>::Err(ErrorKind::InvalidBaseline),
        baseline > 0 ==> r == Result::<Verdict, ErrorKind>::Ok(spec_verdict(value, baseline, upper, lower)),
{
    if baseline == 0 {
        Err(ErrorKind::InvalidBaseline)
    } else {
        Ok(classify(value, baseline, upper, lower))
    }
}

/// With `v >= 0 <= b`, positive denominators, and the lower threshold below
/// the upper one as rationals, a value at or below the lower bound is
/// strictly below the upper bound.
proof fn lemma_rational_low_excludes_high(v: int, b: int, un: int, ud: int, ln: int, ld: int)
    by (nonlinear_arith)
    requires
        v >= 0,
        b > 0,
        ud > 0,
        ld > 0,
        ln * ud < un * ld,
        v * ld <= b * ln,
    ensures
        v * ud < b * un,
{
}

/// Law: for a positive baseline and thresholds with lower strictly below
/// upper as rationals, the verdict is `ExitHigh` exactly when the value
/// reaches or exceeds the upper bound, `ExitLow` exactly when it reaches or
/// falls below the lower bound (both bounds fire inclusively), and
/// `Continue` exactly when the value lies strictly between the two.
pub proof fn lemma_verdict_characterization(value: u64, baseline: u64, upper: Multiplier, lower: Multiplier)
    requires
        upper.wf(),
        lower.wf(),
        baseline > 0,
        (lower.num as int) * (upper.den as int) < (upper.num as int) * (lower.den as int),
    ensures
        (spec_verdict(value, baseline, upper, lower) == Verdict::ExitHigh) <==> upper.spec_at_or_above(value, baseline),
        (spec_verdict(value, baseline, upper, lower) == Verdict::ExitLow) <==> lower.spec_at_or_below(value, baseline),
        (spec_verdict(value, baseline, upper, lower) == Verdict::Continue) <==> (!upper.spec_at_or_above(value, baseline)
            && !lower.spec_at_or_below(value, baseline)),
{
    if lower.spec_at_or_below(value, baseline) {
        lemma_rational_low_excludes_high(
            value as int,
            baseline as int,
            upper.num as int,
            upper.den as int,
            lower.num as int,
            lower.den as int,
        );
    }
}

} // verus!
