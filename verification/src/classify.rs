//! Tick-quantized timing classification.
//!
//! Acquisition polls the input level at a fixed samplerate, so the smallest
//! representable duration is one tick. Expected symbol durations are given in
//! microseconds by a protocol's descriptor and must be scaled into ticks
//! before any comparison; a measured interval is then accepted when it falls
//! within `expected * (1 ± tolerance_pct / 100)`, computed in integer
//! arithmetic.

use vstd::prelude::*;

verus! {

/// The number of ticks that `us` microseconds last at `samplerate` ticks per
/// second, rounded down.
pub open spec fn ticks_of_us(us: u32, samplerate: u32) -> int {
    us * samplerate / 1_000_000
}

/// `interval` lies within `expected * (1 ± tolerance_pct / 100)`, with the
/// slack `expected * tolerance_pct / 100` rounded down.
pub open spec fn within_tolerance_spec(interval: u32, expected: u32, tolerance_pct: u8) -> bool {
    &&& expected - expected * tolerance_pct / 100 <= interval
    &&& interval <= expected + expected * tolerance_pct / 100
}

/// The tolerance slack never exceeds the duration itself while the
/// percentage is at most 100, and the product stays small.
proof fn lemma_slack_le(e: int, t: int)
    requires
        0 <= e,
        0 <= t <= 100,
    ensures
        0 <= e * t / 100 <= e,
        e * t <= e * 100,
{
    assert(0 <= e * t / 100 <= e && e * t <= e * 100) by (nonlinear_arith)
        requires
            0 <= e,
            0 <= t <= 100,
    ;
}

/// Scale a duration in microseconds into ticks at `samplerate`.
pub fn scale_us_to_ticks(us: u32, samplerate: u32) -> (r: u32)
    requires
        ticks_of_us(us, samplerate) <= u32::MAX,
    ensures
        r == ticks_of_us(us, samplerate),
{
    ((us as u64 * samplerate as u64) / 1_000_000) as u32
}

/// At a samplerate of at most one megahertz a tick is at least a
/// microsecond, so a scaled duration never exceeds the duration in
/// microseconds.
pub proof fn lemma_ticks_le_us(us: u32, samplerate: u32)
    requires
        samplerate <= 1_000_000,
    ensures
        0 <= ticks_of_us(us, samplerate) <= us,
{
    assert(us * samplerate <= us * 1_000_000) by (nonlinear_arith)
        requires
            0 <= us,
            samplerate <= 1_000_000,
    ;
    vstd::arithmetic::div_mod::lemma_div_is_ordered(
        us * samplerate,
        us * 1_000_000,
        1_000_000,
    );
    vstd::arithmetic::div_mod::lemma_div_by_multiple(us as int, 1_000_000);
    vstd::arithmetic::div_mod::lemma_div_pos_is_pos(us * samplerate, 1_000_000);
}

/// Tolerance-windowed comparison of a measured interval against an expected
/// symbol duration, both in ticks.
pub fn within_tolerance(interval: u32, expected: u32, tolerance_pct: u8) -> (r: bool)
    requires
        tolerance_pct <= 100,
    ensures
        r == within_tolerance_spec(interval, expected, tolerance_pct),
{
    let e: u64 = expected as u64;
    proof {
        lemma_slack_le(e as int, tolerance_pct as int);
    }
    let slack: u64 = e * (tolerance_pct as u64) / 100;
    let d: u64 = interval as u64;
    e - slack <= d && d <= e + slack
}

/// An inclusive window of accepted durations, in ticks.
#[derive(Clone, Copy, PartialEq, Eq, Structural, Debug)]
pub struct PulseSpan {
    pub low: u32,
    pub high: u32,
}

/// The window that `PulseSpan::new` builds for a symbol duration.
pub open spec fn span_of(expected: u32, tolerance_pct: u8) -> PulseSpan {
    PulseSpan {
        low: (expected - expected * tolerance_pct / 100) as u32,
        high: (expected + expected * tolerance_pct / 100) as u32,
    }
}

impl PulseSpan {
    /// Build the window `expected * (1 ± tolerance_pct / 100)`.
    pub fn new(expected: u32, tolerance_pct: u8) -> (r: PulseSpan)
        requires
            tolerance_pct <= 100,
            expected + expected * tolerance_pct / 100 <= u32::MAX,
        ensures
            r == span_of(expected, tolerance_pct),
    {
        proof {
            lemma_slack_le(expected as int, tolerance_pct as int);
        }
        let slack: u32 = ((expected as u64 * tolerance_pct as u64) / 100) as u32;
        PulseSpan { low: expected - slack, high: expected + slack }
    }

    /// Whether a measured duration falls inside the window.
    pub open spec fn spec_contains(self, d: u32) -> bool {
        self.low <= d <= self.high
    }

    pub fn contains(&self, d: u32) -> (r: bool)
        ensures
            r == self.spec_contains(d),
    {
        self.low <= d && d <= self.high
    }
}

/// The window built from a duration accepts exactly the durations that the
/// tolerance comparison accepts.
pub proof fn lemma_span_matches_tolerance(interval: u32, expected: u32, tolerance_pct: u8)
    requires
        tolerance_pct <= 100,
        expected + expected * tolerance_pct / 100 <= u32::MAX,
    ensures
        span_of(expected, tolerance_pct).spec_contains(interval) == within_tolerance_spec(
            interval,
            expected,
            tolerance_pct,
        ),
{
    lemma_slack_le(expected as int, tolerance_pct as int);
}

/// Tolerance boundary: an interval of exactly `expected * (1 + tolerance)`
/// is accepted, and one tick beyond it is rejected.
pub proof fn lemma_tolerance_boundary(expected: u32, tolerance_pct: u8)
    requires
        tolerance_pct <= 100,
        expected + expected * tolerance_pct / 100 + 1 <= u32::MAX,
    ensures
        within_tolerance_spec(
            (expected * (100 + tolerance_pct) / 100) as u32,
            expected,
            tolerance_pct,
        ),
        !within_tolerance_spec(
            (expected * (100 + tolerance_pct) / 100 + 1) as u32,
            expected,
            tolerance_pct,
        ),
{
    assert(expected * (100 + tolerance_pct) == 100 * expected + expected * tolerance_pct)
        by (nonlinear_arith);
    assert((100 * expected + expected * tolerance_pct) / 100 == expected + expected * tolerance_pct
        / 100) by (nonlinear_arith);
}

} // verus!
