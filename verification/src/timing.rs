//! Waveform timing arithmetic for the phase timer pair.
//!
//! Each drive leg is one HRTIM channel programmed with a period register and
//! two compare registers: the output rises at `cmp1` and falls at `cmp2` and
//! at the period rollover.  Shifting both compare points by the same offset
//! shifts the whole leg waveform against a leg programmed with offset zero,
//! which is how the two halves of the bridge are phased against each other.

use vstd::prelude::*;

verus! {

use vstd::arithmetic::div_mod::lemma_div_is_ordered;
use vstd::arithmetic::div_mod::lemma_fundamental_div_mod_converse;
use vstd::arithmetic::mul::lemma_mul_inequality;
use vstd::arithmetic::mul::lemma_mul_is_commutative;

/// Fixed-point scale of a phase fraction: `raw == PHASE_UNIT` stands for a
/// full period (1.0), `raw == PHASE_UNIT / 2` for half a period.
pub const PHASE_UNIT: u32 = 65536;

/// A normalized phase-shift parameter.  The meaningful range is
/// `[0, PHASE_UNIT]`, standing for `[0.0, 1.0]`; anything above is clamped
/// to `PHASE_UNIT` before use, so a raw value can never program a timing set
/// outside the physically valid conduction range.
#[derive(Clone, Copy, Debug, PartialEq, Eq, Structural)]
pub struct PhaseFraction {
    pub raw: u32,
}

/// One leg's register image: period, rise compare and fall compare.
#[derive(Clone, Copy, Debug, PartialEq, Eq, Structural)]
pub struct HrtimChannelTimings {
    pub per: u16,
    pub cmp1: u16,
    pub cmp2: u16,
}

/// The phase fraction actually used: raw values above `PHASE_UNIT` are
/// clamped down to it.
pub open spec fn spec_clamped_phase(raw: u32) -> int {
    if raw > PHASE_UNIT {
        PHASE_UNIT as int
    } else {
        raw as int
    }
}

/// Tick offset of a leg's compare points: `half * phase`, rounded to the
/// nearest tick.
pub open spec fn spec_phase_offset(half: int, raw: u32) -> int {
    (half * spec_clamped_phase(raw) + (PHASE_UNIT as int) / 2) / (PHASE_UNIT as int)
}

/// The rounded offset never exceeds the half-period it scales.
pub proof fn lemma_phase_offset_bounds(half: int, raw: u32)
    requires
        0 <= half,
    ensures
        0 <= spec_phase_offset(half, raw) <= half,
{
    let p = spec_clamped_phase(raw);
    let unit = PHASE_UNIT as int;
    let num = half * p + unit / 2;
    assert(0 <= half * p) by (nonlinear_arith)
        requires
            0 <= half,
            0 <= p,
    ;
    assert(0 <= num / unit) by (nonlinear_arith)
        requires
            0 <= num,
            unit == 65536,
    ;
    lemma_mul_inequality(p, unit, half);
    lemma_mul_is_commutative(p, half);
    lemma_mul_is_commutative(unit, half);
    assert(num <= half * unit + unit / 2);
    lemma_fundamental_div_mod_converse(half * unit + unit / 2, unit, half, unit / 2);
    lemma_div_is_ordered(num, half * unit + unit / 2, unit);
}

/// The timing set for one leg at a given period and phase fraction.  The
/// period is first forced even so that the half-period is exact; the leg
/// rises at `half - offset` and falls at `per - offset`.
pub open spec fn spec_channel_timings(period: u16, phase: PhaseFraction) -> HrtimChannelTimings {
    let per = (period - period % 2) as u16;
    let half = per / 2;
    let off = spec_phase_offset(half as int, phase.raw);
    HrtimChannelTimings { per, cmp1: (half - off) as u16, cmp2: (per - off) as u16 }
}

/// Compute one leg's register image from a period and a phase fraction.
///
/// For every period of at least two ticks and every phase fraction the
/// result satisfies `cmp1 < cmp2 <= per` with `per` even, so the rise always
/// precedes the fall and both fit in the programmed period.
pub fn compute_hrtim_channel_timings(period: u16, phase: PhaseFraction) -> (r:
    HrtimChannelTimings)
    ensures
        r == spec_channel_timings(period, phase),
        r.per % 2 == 0,
        r.per <= period,
        period <= r.per + 1,
        r.cmp1 <= r.cmp2,
        r.cmp2 <= r.per,
        period >= 2 ==> r.cmp1 < r.cmp2,
{
    let per: u16 = period - period % 2;
    let half: u16 = per / 2;
    let clamped: u32 = if phase.raw > PHASE_UNIT {
        PHASE_UNIT
    } else {
        phase.raw
    };
    proof {
        assert((half as int) * (clamped as int) <= 65535 * 65536) by (nonlinear_arith)
            requires
                half <= 65535,
                clamped <= 65536,
        ;
    }
    let num: u64 = (half as u64) * (clamped as u64) + (PHASE_UNIT as u64) / 2;
    let off64: u64 = num / (PHASE_UNIT as u64);
    proof {
        lemma_phase_offset_bounds(half as int, phase.raw);
        assert(off64 == spec_phase_offset(half as int, phase.raw));
    }
    let off: u16 = off64 as u16;
    HrtimChannelTimings { per, cmp1: half - off, cmp2: per - off }
}

/// The capture-delay compare point that re-synchronizes the legs to the
/// feedback edge: half the period, pulled in by the configured gate-drive
/// latency compensation, and floored at zero when the compensation exceeds
/// the half-period.
pub open spec fn spec_feedback_delay(period: u16, delay_compensation: u16) -> u16 {
    if delay_compensation <= period / 2 {
        (period / 2 - delay_compensation) as u16
    } else {
        0
    }
}

/// Compute the feedback-delay compare point for a period.
pub fn feedback_delay(period: u16, delay_compensation: u16) -> (r: u16)
    ensures
        r == spec_feedback_delay(period, delay_compensation),
{
    let half: u16 = period / 2;
    if delay_compensation <= half {
        half - delay_compensation
    } else {
        0
    }
}

} // verus!
