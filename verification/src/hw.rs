//! Register-level model of the drive hardware.
//!
//! The two output channels (leg A and leg C), the feedback-delay compare
//! point, the capture unit and the overcurrent input are held as plain
//! values.  The platform layer mirrors the committed register images into
//! the real peripherals and feeds captures and the input level back in; the
//! controller's logic only ever sees this model.
//!
//! The model keeps the hardware's preload discipline: while an update
//! bracket is open (`begin_update` .. `end_update`), register writes land in
//! the staged image only, and the whole staged image becomes the committed
//! image at once when the bracket closes.  Writing the timing registers is
//! only allowed inside a bracket, so a half-old/half-new register set — the
//! glitch pulse that could destroy the power stage — can never be committed.

use vstd::prelude::*;

verus! {

use crate::timing::HrtimChannelTimings;
use crate::timing::PHASE_UNIT;
use crate::timing::PhaseFraction;
use crate::timing::compute_hrtim_channel_timings;
use crate::timing::feedback_delay;
use crate::timing::spec_channel_timings;
use crate::timing::spec_phase_offset;
use crate::timing::spec_clamped_phase;
use crate::timing::spec_feedback_delay;

/// The registers that take effect together at an update boundary: both legs'
/// period/compare sets and the feedback-delay compare point.
#[derive(Clone, Copy, Debug, PartialEq, Eq, Structural)]
pub struct TimerRegs {
    pub leg_a: HrtimChannelTimings,
    pub leg_c: HrtimChannelTimings,
    pub feedback_delay: u16,
}

/// The phase fraction programmed into leg C: the complement of the
/// commanded phase shift, so that leg A transitions at phase zero and leg C
/// at `1 - phase`.
pub open spec fn spec_phase_complement(phase: PhaseFraction) -> PhaseFraction {
    PhaseFraction { raw: (PHASE_UNIT - spec_clamped_phase(phase.raw)) as u32 }
}

/// The consistent register image for one (period, phase) pair: leg A at
/// phase zero, leg C at the complement, and the feedback-delay compare for
/// the same period.  `flip_phases` swaps the two legs' timing sets.
pub open spec fn spec_timer_regs(
    period: u16,
    phase: PhaseFraction,
    flip_phases: bool,
    delay_compensation: u16,
) -> TimerRegs {
    let alpha = spec_channel_timings(period, PhaseFraction { raw: 0 });
    let beta = spec_channel_timings(period, spec_phase_complement(phase));
    TimerRegs {
        leg_a: if flip_phases {
            beta
        } else {
            alpha
        },
        leg_c: if flip_phases {
            alpha
        } else {
            beta
        },
        feedback_delay: spec_feedback_delay(period, delay_compensation),
    }
}

/// The register image with every field zero, as the model starts out.
pub open spec fn spec_zero_regs() -> TimerRegs {
    TimerRegs {
        leg_a: HrtimChannelTimings { per: 0, cmp1: 0, cmp2: 0 },
        leg_c: HrtimChannelTimings { per: 0, cmp1: 0, cmp2: 0 },
        feedback_delay: 0,
    }
}

/// A zero period programs the zero image, whatever the phase and the delay
/// compensation: every compare point of a zero-length period is zero.
pub proof fn lemma_zero_regs(phase: PhaseFraction, flip_phases: bool, delay_compensation: u16)
    ensures
        spec_timer_regs(0, phase, flip_phases, delay_compensation) == spec_zero_regs(),
{
    let zero = PhaseFraction { raw: 0 };
    let comp = spec_phase_complement(phase);
    assert(spec_phase_offset(0, zero.raw) == 0);
    assert(spec_phase_offset(0, comp.raw) == 0);
    assert(spec_channel_timings(0, zero) == (HrtimChannelTimings { per: 0, cmp1: 0, cmp2: 0 }));
    assert(spec_channel_timings(0, comp) == (HrtimChannelTimings { per: 0, cmp1: 0, cmp2: 0 }));
    assert(spec_feedback_delay(0, delay_compensation) == 0);
}

/// The phase timer pair together with the update bracket, the run/freeze
/// state, the feedback re-synchronization path and the feedback-capture
/// interrupt mask.
#[derive(Clone, Copy, Debug, PartialEq, Eq, Structural)]
pub struct PhaseTimers {
    /// Register writes land here; not yet in effect while a bracket is open.
    pub staged: TimerRegs,
    /// The register image the hardware is actually running on.
    pub committed: TimerRegs,
    /// True while an update bracket is open (commit of writes deferred).
    pub update_deferred: bool,
    /// True when both legs toggle; false freezes the outputs at their safe
    /// idle level.
    pub active: bool,
    /// True when the feedback-delay compare resets both legs each cycle
    /// (closed-loop synchronization).
    pub feedback_triggering: bool,
    /// True when the feedback-capture interrupt is unmasked.
    pub feedback_interrupt_enabled: bool,
    /// True once the output stage drivers have been enabled.
    pub outputs_enabled: bool,
}

impl PhaseTimers {
    /// The model as the hardware comes out of reset: zero registers, bracket
    /// closed, outputs frozen, feedback path and interrupt off.
    pub open spec fn spec_reset() -> PhaseTimers {
        PhaseTimers {
            staged: spec_zero_regs(),
            committed: spec_zero_regs(),
            update_deferred: false,
            active: false,
            feedback_triggering: false,
            feedback_interrupt_enabled: false,
            outputs_enabled: false,
        }
    }

    /// Build the reset-state model.
    pub fn reset() -> (r: PhaseTimers)
        ensures
            r == PhaseTimers::spec_reset(),
    {
        PhaseTimers {
            staged: TimerRegs {
                leg_a: HrtimChannelTimings { per: 0, cmp1: 0, cmp2: 0 },
                leg_c: HrtimChannelTimings { per: 0, cmp1: 0, cmp2: 0 },
                feedback_delay: 0,
            },
            committed: TimerRegs {
                leg_a: HrtimChannelTimings { per: 0, cmp1: 0, cmp2: 0 },
                leg_c: HrtimChannelTimings { per: 0, cmp1: 0, cmp2: 0 },
                feedback_delay: 0,
            },
            update_deferred: false,
            active: false,
            feedback_triggering: false,
            feedback_interrupt_enabled: false,
            outputs_enabled: false,
        }
    }

    /// Open the update bracket: defer the commit of timing-register writes.
    pub fn begin_update(&mut self)
        ensures
            *final(self) == (PhaseTimers { update_deferred: true, ..*old(self) }),
    {
        self.update_deferred = true;
    }

    /// Close the update bracket: the whole staged image becomes committed at
    /// one synchronized instant.
    pub fn end_update(&mut self)
        ensures
            *final(self) == (PhaseTimers {
                update_deferred: false,
                committed: old(self).staged,
                ..*old(self)
            }),
    {
        self.committed = self.staged;
        self.update_deferred = false;
    }

    /// Stage the full register image for one (period, phase) pair.  Only
    /// allowed inside an update bracket, so a partially written image can
    /// never take effect.
    pub fn set_period_phase(
        &mut self,
        period: u16,
        phase: PhaseFraction,
        flip_phases: bool,
        delay_compensation: u16,
    )
        requires
            old(self).update_deferred,
        ensures
            *final(self) == (PhaseTimers {
                staged: spec_timer_regs(period, phase, flip_phases, delay_compensation),
                ..*old(self)
            }),
    {
        let clamped: u32 = if phase.raw > PHASE_UNIT {
            PHASE_UNIT
        } else {
            phase.raw
        };
        let alpha = compute_hrtim_channel_timings(period, PhaseFraction { raw: 0 });
        let beta = compute_hrtim_channel_timings(
            period,
            PhaseFraction { raw: PHASE_UNIT - clamped },
        );
        let (leg_a, leg_c) = if flip_phases {
            (beta, alpha)
        } else {
            (alpha, beta)
        };
        self.staged = TimerRegs {
            leg_a,
            leg_c,
            feedback_delay: feedback_delay(period, delay_compensation),
        };
    }

    /// Let both legs run, or freeze them at their idle level.
    pub fn set_phase_timers_active(&mut self, active: bool)
        ensures
            *final(self) == (PhaseTimers { active, ..*old(self) }),
    {
        self.active = active;
    }

    /// Enable or disable the feedback-delay compare resetting both legs.
    pub fn set_feedback_triggering_active(&mut self, active: bool)
        ensures
            *final(self) == (PhaseTimers { feedback_triggering: active, ..*old(self) }),
    {
        self.feedback_triggering = active;
    }

    /// Mask or unmask the feedback-capture interrupt.
    pub fn set_feedback_interrupt_enabled(&mut self, enabled: bool)
        ensures
            *final(self) == (PhaseTimers { feedback_interrupt_enabled: enabled, ..*old(self) }),
    {
        self.feedback_interrupt_enabled = enabled;
    }

    /// Enable the output stage drivers.
    pub fn enable_outputs(&mut self)
        ensures
            *final(self) == (PhaseTimers { outputs_enabled: true, ..*old(self) }),
    {
        self.outputs_enabled = true;
    }
}

/// The feedback-period capture unit.  The hardware resets its counter on
/// every rising feedback edge and stores the pre-reset count; only the most
/// recent capture is observable, and an unread capture is silently
/// overwritten by the next edge.  That loss is by design: the controller
/// only ever needs the latest measurement.
#[derive(Clone, Copy, Debug, PartialEq, Eq, Structural)]
pub struct FrequencyDetector {
    /// The captured period of the last feedback edge since the last read,
    /// if any.
    pub capture: Option<u16>,
}

impl FrequencyDetector {
    /// Build the detector with no capture pending.
    pub fn reset() -> (r: FrequencyDetector)
        ensures
            r == (FrequencyDetector { capture: None::<u16> }),
    {
        FrequencyDetector { capture: None }
    }

    /// A feedback edge arrived: record its period, overwriting any capture
    /// that was never read.
    pub fn record_capture(&mut self, period: u16)
        ensures
            *final(self) == (FrequencyDetector { capture: Some(period) }),
    {
        self.capture = Some(period);
    }

    /// Non-blocking read: hand out the capture and clear the flag, or
    /// report that no edge arrived since the last read.
    pub fn read(&mut self) -> (r: Option<u16>)
        ensures
            r == old(self).capture,
            *final(self) == (FrequencyDetector { capture: None::<u16> }),
    {
        let r = self.capture;
        self.capture = None;
        r
    }

    /// Discard any pending capture without reading it.
    pub fn clear(&mut self)
        ensures
            *final(self) == (FrequencyDetector { capture: None::<u16> }),
    {
        self.capture = None;
    }
}

/// The overcurrent input path: the instantaneous level of the active-low
/// fault line, plus the edge-pending flag that records a fault edge between
/// polls.
#[derive(Clone, Copy, Debug, PartialEq, Eq, Structural)]
pub struct OvercurrentInput {
    /// True while the fault line is at its active level.
    pub active: bool,
    /// True when a fault edge has been captured and not yet acknowledged.
    pub edge_pending: bool,
}

impl OvercurrentInput {
    /// Build the input model with the line inactive and no edge pending.
    pub fn reset() -> (r: OvercurrentInput)
        ensures
            r == (OvercurrentInput { active: false, edge_pending: false }),
    {
        OvercurrentInput { active: false, edge_pending: false }
    }

    /// The fault line changed level; a transition to active also latches
    /// the edge-pending flag.
    pub fn set_level(&mut self, active: bool)
        ensures
            final(self).active == active,
            final(self).edge_pending == (old(self).edge_pending || (active && !old(self).active)),
    {
        if active && !self.active {
            self.edge_pending = true;
        }
        self.active = active;
    }

    /// Acknowledge the captured fault edge.  The edge handler only clears
    /// the flag; the authoritative state transition happens in the poll
    /// path, which reads the level itself.
    pub fn acknowledge_edge(&mut self)
        ensures
            *final(self) == (OvercurrentInput { edge_pending: false, ..*old(self) }),
    {
        self.edge_pending = false;
    }
}

} // verus!
