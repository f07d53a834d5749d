//! The drive controller: a small real-time state machine that owns the
//! phase timer pair, the frequency/period capture detector and the
//! overcurrent input.
//!
//! A high-rate caller polls `update`; the platform's feedback-capture
//! interrupt calls `on_feedback_capture`; commands arrive through `start`
//! and `clear_overcurrent`.  Every transition is mirrored by a spec-level
//! transition function, and each public operation is proved to perform
//! exactly that transition and to preserve the controller's well-formedness
//! invariant — in particular, that the committed hardware registers always
//! hold the consistent image for the controller's current period and phase
//! setpoint.

use vstd::prelude::*;

verus! {

use crate::hw::FrequencyDetector;
use crate::hw::OvercurrentInput;
use crate::hw::PhaseTimers;
use crate::hw::TimerRegs;
use crate::hw::lemma_zero_regs;
use crate::hw::spec_timer_regs;
use crate::timing::PhaseFraction;
use crate::timing::PHASE_UNIT;
use crate::timing::spec_clamped_phase;

/// Fixed configuration, applied once at `init`.
#[derive(Clone, Copy, Debug, PartialEq, Eq, Structural)]
pub struct Config {
    /// Ticks subtracted from the nominal half-period to compensate the
    /// gate-drive and feedback-path latency.
    pub delay_compensation: u16,
    /// The assumed feedback period before any lock, in ticks.
    pub startup_period: u16,
    /// Largest difference between the assumed and a measured period that
    /// still counts as locked, in ticks.
    pub allowed_period_deviation: u16,
}

/// The commanded operating intent handed to `start`.
#[derive(Clone, Copy, Debug, PartialEq, Eq, Structural)]
pub enum RunMode {
    /// Run closed-loop right away at a fixed phase for a fixed time.
    TestClosedLoop { phase: PhaseFraction, time_us: u32 },
    /// Run open-loop (no feedback synchronization) at a fixed phase for a
    /// fixed time.
    TestOpenLoop { phase: PhaseFraction, time_us: u32 },
    /// Acquire lock first, then run at a fixed phase for a fixed time.
    Burst { phase: PhaseFraction, time_us: u32 },
    /// Acquire lock first, then sweep the phase linearly from `phase_t0`
    /// to `phase_t1` over the run time.
    Ramp { phase_t0: PhaseFraction, phase_t1: PhaseFraction, time_us: u32 },
}

/// The mutually exclusive operating states.
#[derive(Clone, Copy, Debug, PartialEq, Eq, Structural)]
pub enum OperationState {
    Idle,
    Locking,
    Running,
    RunningOpenLoop,
    Overcurrent,
}

/// `start` refused: the controller is not idle, or the fault line is
/// active.  The caller must wait for the current run to end, or clear the
/// overcurrent first.
#[derive(Clone, Copy, Debug, PartialEq, Eq, Structural)]
pub struct Busy;

/// `clear_overcurrent` refused: the fault line is still active, or a run is
/// in progress.
#[derive(Clone, Copy, Debug, PartialEq, Eq, Structural)]
pub struct NotClear;

/// States in which the drive is producing output (`is_running` reports
/// these).
pub open spec fn spec_is_running(s: OperationState) -> bool {
    s is Locking || s is Running || s is RunningOpenLoop
}

/// The state a mode enters on `start`: modes that need lock acquisition
/// start in `Locking`, the test modes go straight to their running state.
pub open spec fn spec_entry_state(m: RunMode) -> OperationState {
    match m {
        RunMode::TestClosedLoop { .. } => OperationState::Running,
        RunMode::TestOpenLoop { .. } => OperationState::RunningOpenLoop,
        RunMode::Burst { .. } => OperationState::Locking,
        RunMode::Ramp { .. } => OperationState::Locking,
    }
}

/// The phase setpoint a mode starts out with.
pub open spec fn spec_initial_phase(m: RunMode) -> PhaseFraction {
    match m {
        RunMode::TestClosedLoop { phase, .. } => phase,
        RunMode::TestOpenLoop { phase, .. } => phase,
        RunMode::Burst { phase, .. } => phase,
        RunMode::Ramp { phase_t0, .. } => phase_t0,
    }
}

/// How long a mode runs, in microseconds.
pub open spec fn spec_mode_duration(m: RunMode) -> u64 {
    match m {
        RunMode::TestClosedLoop { time_us, .. } => time_us as u64,
        RunMode::TestOpenLoop { time_us, .. } => time_us as u64,
        RunMode::Burst { time_us, .. } => time_us as u64,
        RunMode::Ramp { time_us, .. } => time_us as u64,
    }
}

/// A measured period counts as locked when it deviates from the assumed
/// period by at most `dev` ticks in either direction.
pub open spec fn spec_within_deviation(assumed: u16, measured: u16, dev: u16) -> bool {
    -(dev as int) <= assumed - measured <= dev as int
}

/// The phase of a linear ramp from `p0` to `p1` after `elapsed` of `dur`
/// microseconds: endpoints are clamped to the valid phase range, and the
/// interpolation never leaves the segment between them.
pub open spec fn spec_ramp_phase(
    p0: PhaseFraction,
    p1: PhaseFraction,
    elapsed: int,
    dur: int,
) -> PhaseFraction
    recommends
        0 <= elapsed < dur,
{
    let a = spec_clamped_phase(p0.raw);
    let b = spec_clamped_phase(p1.raw);
    if b >= a {
        PhaseFraction { raw: (a + (b - a) * elapsed / dur) as u32 }
    } else {
        PhaseFraction { raw: (a - (a - b) * elapsed / dur) as u32 }
    }
}

/// A nonnegative value scaled by `elapsed / dur` with `elapsed < dur` stays
/// within `[0, d]`.
pub proof fn lemma_ramp_step_bounds(d: int, elapsed: int, dur: int)
    requires
        0 <= d,
        0 <= elapsed < dur,
    ensures
        0 <= d * elapsed / dur <= d,
{
    assert(0 <= d * elapsed) by (nonlinear_arith)
        requires
            0 <= d,
            0 <= elapsed,
    ;
    assert(d * elapsed <= d * dur) by (nonlinear_arith)
        requires
            0 <= d,
            elapsed <= dur,
    ;
    vstd::arithmetic::div_mod::lemma_div_is_ordered(d * elapsed, d * dur, dur);
    vstd::arithmetic::div_mod::lemma_fundamental_div_mod_converse(d * dur, dur, d, 0);
    assert(0 <= d * elapsed / dur) by (nonlinear_arith)
        requires
            0 <= d * elapsed,
            0 < dur,
    ;
}

/// Compute the ramp phase; see `spec_ramp_phase`.
pub fn ramp_phase(p0: PhaseFraction, p1: PhaseFraction, elapsed: u64, dur: u64) -> (r:
    PhaseFraction)
    requires
        elapsed < dur,
        dur <= u32::MAX,
    ensures
        r == spec_ramp_phase(p0, p1, elapsed as int, dur as int),
        r.raw <= PHASE_UNIT,
{
    let a: u64 = if p0.raw > PHASE_UNIT {
        PHASE_UNIT as u64
    } else {
        p0.raw as u64
    };
    let b: u64 = if p1.raw > PHASE_UNIT {
        PHASE_UNIT as u64
    } else {
        p1.raw as u64
    };
    if b >= a {
        proof {
            lemma_ramp_step_bounds(b - a, elapsed as int, dur as int);
            assert((b - a) * elapsed <= 65536 * 0xFFFF_FFFFu64) by (nonlinear_arith)
                requires
                    b - a <= 65536,
                    elapsed <= 0xFFFF_FFFFu64,
            ;
        }
        let step: u64 = (b - a) * elapsed / dur;
        PhaseFraction { raw: (a + step) as u32 }
    } else {
        proof {
            lemma_ramp_step_bounds(a - b, elapsed as int, dur as int);
            assert((a - b) * elapsed <= 65536 * 0xFFFF_FFFFu64) by (nonlinear_arith)
                requires
                    a - b <= 65536,
                    elapsed <= 0xFFFF_FFFFu64,
            ;
        }
        let step: u64 = (a - b) * elapsed / dur;
        PhaseFraction { raw: (a - step) as u32 }
    }
}

/// The frozen image of the timer pair: any staged writes are committed,
/// both legs stop toggling, the feedback re-synchronization path and the
/// feedback-capture interrupt are off.
pub open spec fn spec_frozen(t: PhaseTimers) -> PhaseTimers {
    PhaseTimers {
        committed: t.staged,
        update_deferred: false,
        active: false,
        feedback_triggering: false,
        feedback_interrupt_enabled: false,
        ..t
    }
}

/// The controller: configuration, machine state, run bookkeeping, and the
/// hardware it owns.
#[derive(Clone, Copy, Debug, PartialEq, Eq, Structural)]
pub struct Controller {
    pub config: Config,
    /// The current operating state; exactly one holds at any instant.
    pub state: OperationState,
    /// The commanded mode; present exactly while not `Idle`.
    pub run_mode: Option<RunMode>,
    /// When the current run began (microseconds of the monotonic clock).
    pub t0: u64,
    /// The last known or assumed feedback period, in ticks.
    pub period: u16,
    /// The phase fraction the timers are programmed with.
    pub phase_setpoint: PhaseFraction,
    /// The phase timer pair, update bracket and interrupt mask.
    pub timers: PhaseTimers,
    /// The feedback-period capture unit.
    pub detector: FrequencyDetector,
    /// The overcurrent input path.
    pub ocd: OvercurrentInput,
}

impl Controller {
    /// Well-formedness: the hardware always runs on the register image of
    /// the most recently committed controller state, no update bracket is
    /// left open between calls, the run mode is present exactly while not
    /// idle and fits the state, and the output/feedback/interrupt switches
    /// follow the state.
    pub open spec fn wf(self) -> bool {
        &&& (self.run_mode is Some <==> !(self.state is Idle))
        &&& !self.timers.update_deferred
        &&& self.timers.staged == self.timers.committed
        &&& self.timers.committed == spec_timer_regs(
            self.period,
            self.phase_setpoint,
            false,
            self.config.delay_compensation,
        )
        &&& self.timers.active == spec_is_running(self.state)
        &&& self.timers.feedback_triggering == (self.state is Running)
        &&& self.timers.feedback_interrupt_enabled == (self.state is Running)
        &&& (spec_is_running(self.state) ==> self.timers.outputs_enabled)
        &&& (self.state is Locking ==> (self.run_mode matches Some(m) && (m is Burst
            || m is Ramp)))
        &&& (self.state is RunningOpenLoop ==> (self.run_mode matches Some(m)
            && m is TestOpenLoop))
        &&& (self.state is Running ==> (self.run_mode matches Some(m) && !(m is TestOpenLoop)))
    }

    /// The freshly initialized controller: idle, no mode, zeroed timing.
    pub open spec fn spec_init(config: Config) -> Controller {
        Controller {
            config,
            state: OperationState::Idle,
            run_mode: None,
            t0: 0,
            period: 0,
            phase_setpoint: PhaseFraction { raw: 0 },
            timers: PhaseTimers::spec_reset(),
            detector: FrequencyDetector { capture: None },
            ocd: OvercurrentInput { active: false, edge_pending: false },
        }
    }

    /// Initialize the controller with its configuration.  The drive comes
    /// up idle with outputs frozen.
    pub fn init(config: Config) -> (c: Controller)
        ensures
            c == Controller::spec_init(config),
            c.wf(),
    {
        let c = Controller {
            config,
            state: OperationState::Idle,
            run_mode: None,
            t0: 0,
            period: 0,
            phase_setpoint: PhaseFraction { raw: 0 },
            timers: PhaseTimers::reset(),
            detector: FrequencyDetector::reset(),
            ocd: OvercurrentInput::reset(),
        };
        proof {
            lemma_zero_regs(c.phase_setpoint, false, config.delay_compensation);
        }
        c
    }

    /// `start` succeeds exactly when the controller is idle and the fault
    /// line is inactive.
    pub open spec fn spec_start_allowed(self) -> bool {
        self.state is Idle && !self.ocd.active
    }

    /// The controller after a successful `start`: the mode's entry state,
    /// the startup period and the mode's initial phase programmed and
    /// committed, outputs unfrozen, and the feedback path and interrupt
    /// enabled exactly for immediate closed-loop operation.
    pub open spec fn spec_start(self, run_mode: RunMode, now: u64) -> Controller {
        let entry = spec_entry_state(run_mode);
        let phase = spec_initial_phase(run_mode);
        let regs = spec_timer_regs(
            self.config.startup_period,
            phase,
            false,
            self.config.delay_compensation,
        );
        Controller {
            state: entry,
            run_mode: Some(run_mode),
            t0: now,
            period: self.config.startup_period,
            phase_setpoint: phase,
            timers: PhaseTimers {
                staged: regs,
                committed: regs,
                update_deferred: false,
                active: true,
                feedback_triggering: entry is Running,
                feedback_interrupt_enabled: entry is Running,
                outputs_enabled: true,
            },
            ..self
        }
    }

    /// Begin a run.  Programs the startup period and the mode's initial
    /// phase inside one update bracket, unfreezes the outputs, and enables
    /// the feedback-driven reset path and capture interrupt only for modes
    /// that run closed-loop immediately.  Refused — with no state change —
    /// while a run is in progress, while the overcurrent latch holds, or
    /// while the fault line is active.
    pub fn start(&mut self, run_mode: RunMode, now: u64) -> (r: Result<(), Busy>)
        requires
            old(self).wf(),
        ensures
            final(self).wf(),
            r is Ok <==> old(self).spec_start_allowed(),
            r is Ok ==> *final(self) == old(self).spec_start(run_mode, now),
            r is Err ==> *final(self) == *old(self),
    {
        if self.state != OperationState::Idle || self.ocd.active {
            return Err(Busy);
        }
        let config = self.config;
        let (entry_state, phase) = match run_mode {
            RunMode::Burst { phase, .. } => (OperationState::Locking, phase),
            RunMode::Ramp { phase_t0, .. } => (OperationState::Locking, phase_t0),
            RunMode::TestClosedLoop { phase, .. } => (OperationState::Running, phase),
            RunMode::TestOpenLoop { phase, .. } => (OperationState::RunningOpenLoop, phase),
        };
        let period = config.startup_period;
        self.period = period;
        self.phase_setpoint = phase;
        self.run_mode = Some(run_mode);
        self.state = entry_state;
        self.t0 = now;

        self.timers.begin_update();
        self.timers.set_period_phase(period, phase, false, config.delay_compensation);
        self.timers.set_phase_timers_active(true);
        let closed_loop = entry_state == OperationState::Running;
        self.timers.set_feedback_triggering_active(closed_loop);
        self.timers.end_update();

        self.timers.enable_outputs();
        self.timers.set_feedback_interrupt_enabled(closed_loop);
        Ok(())
    }

    /// The controller after an overcurrent cutoff: outputs frozen, feedback
    /// path and interrupt off, state latched at `Overcurrent`.
    pub open spec fn spec_enter_overcurrent(self) -> Controller {
        Controller {
            state: OperationState::Overcurrent,
            timers: spec_frozen(self.timers),
            ..self
        }
    }

    /// The controller after a run ends: outputs frozen, feedback path and
    /// interrupt off, back to `Idle` with no mode.
    pub open spec fn spec_stop_to_idle(self) -> Controller {
        Controller {
            state: OperationState::Idle,
            run_mode: None,
            timers: spec_frozen(self.timers),
            ..self
        }
    }

    /// The controller after declaring lock on a measured period: the
    /// measurement is adopted, the timers are reprogrammed for it inside
    /// one bracket, any pending capture is discarded, and the feedback
    /// reset path and capture interrupt come on.
    pub open spec fn spec_lock(self, measured: u16) -> Controller {
        let regs = spec_timer_regs(
            measured,
            self.phase_setpoint,
            false,
            self.config.delay_compensation,
        );
        Controller {
            state: OperationState::Running,
            period: measured,
            detector: FrequencyDetector { capture: None },
            timers: PhaseTimers {
                staged: regs,
                committed: regs,
                update_deferred: false,
                feedback_triggering: true,
                feedback_interrupt_enabled: true,
                ..self.timers
            },
            ..self
        }
    }

    /// One `Locking` poll: consume the capture, if any; adopt it and enter
    /// `Running` when it is within the allowed deviation of the assumed
    /// period, otherwise keep waiting.
    pub open spec fn spec_update_locking(self) -> Controller {
        match self.detector.capture {
            None => self,
            Some(m) => if spec_within_deviation(
                self.period,
                m,
                self.config.allowed_period_deviation,
            ) {
                self.spec_lock(m)
            } else {
                Controller { detector: FrequencyDetector { capture: None }, ..self }
            },
        }
    }

    /// One poll in a running state: end the run once the mode's duration
    /// has elapsed; while a ramp runs, move the phase setpoint along the
    /// ramp and reprogram the timers for it.
    pub open spec fn spec_update_running(self, now: u64) -> Controller {
        match self.run_mode {
            None => self,
            Some(m) => {
                let elapsed = now - self.t0;
                let dur = spec_mode_duration(m) as int;
                if elapsed >= dur {
                    self.spec_stop_to_idle()
                } else {
                    match m {
                        RunMode::Ramp { phase_t0, phase_t1, .. } => {
                            if self.state is Running {
                                let ph = spec_ramp_phase(phase_t0, phase_t1, elapsed, dur);
                                let regs = spec_timer_regs(
                                    self.period,
                                    ph,
                                    false,
                                    self.config.delay_compensation,
                                );
                                Controller {
                                    phase_setpoint: ph,
                                    timers: PhaseTimers {
                                        staged: regs,
                                        committed: regs,
                                        update_deferred: false,
                                        ..self.timers
                                    },
                                    ..self
                                }
                            } else {
                                self
                            }
                        },
                        _ => self,
                    }
                }
            },
        }
    }

    /// One poll of the controller.  The overcurrent check comes first and
    /// unconditionally: an active fault line in any running state freezes
    /// the outputs and latches `Overcurrent` before anything else is
    /// considered.
    pub open spec fn spec_update(self, now: u64) -> Controller {
        if spec_is_running(self.state) && self.ocd.active {
            self.spec_enter_overcurrent()
        } else {
            match self.state {
                OperationState::Idle => self,
                OperationState::Overcurrent => self,
                OperationState::Locking => self.spec_update_locking(),
                OperationState::Running => self.spec_update_running(now),
                OperationState::RunningOpenLoop => self.spec_update_running(now),
            }
        }
    }

    /// Freeze the outputs: commit any staged writes, stop both legs, and
    /// turn the feedback path and capture interrupt off.
    fn freeze_outputs(&mut self)
        ensures
            *final(self) == (Controller { timers: spec_frozen(old(self).timers), ..*old(self) }),
    {
        self.timers.begin_update();
        self.timers.set_phase_timers_active(false);
        self.timers.set_feedback_triggering_active(false);
        self.timers.end_update();
        self.timers.set_feedback_interrupt_enabled(false);
    }

    /// The periodic poll.  Performs exactly the `spec_update` transition:
    /// overcurrent cutoff first, then lock acquisition in `Locking`,
    /// duration-based run termination and ramp interpolation in the
    /// running states.
    pub fn update(&mut self, now: u64)
        requires
            old(self).wf(),
            old(self).t0 <= now,
        ensures
            final(self).wf(),
            *final(self) == old(self).spec_update(now),
    {
        let is_running_state = match self.state {
            OperationState::Locking => true,
            OperationState::Running => true,
            OperationState::RunningOpenLoop => true,
            _ => false,
        };
        if is_running_state && self.ocd.active {
            self.freeze_outputs();
            self.state = OperationState::Overcurrent;
            return;
        }
        match self.state {
            OperationState::Idle => {},
            OperationState::Overcurrent => {},
            OperationState::Locking => {
                let config = self.config;
                if let Some(measured) = self.detector.read() {
                    let assumed = self.period;
                    let diff: i32 = if assumed >= measured {
                        assumed as i32 - measured as i32
                    } else {
                        measured as i32 - assumed as i32
                    };
                    if diff <= config.allowed_period_deviation as i32 {
                        self.period = measured;
                        self.state = OperationState::Running;
                        self.timers.begin_update();
                        self.timers.set_feedback_triggering_active(true);
                        self.timers.set_period_phase(
                            measured,
                            self.phase_setpoint,
                            false,
                            config.delay_compensation,
                        );
                        self.detector.clear();
                        self.timers.end_update();
                        self.timers.set_feedback_interrupt_enabled(true);
                    }
                }
            },
            OperationState::Running | OperationState::RunningOpenLoop => {
                let config = self.config;
                if let Some(mode) = self.run_mode {
                    let elapsed: u64 = now - self.t0;
                    let time_us: u32 = match mode {
                        RunMode::TestClosedLoop { time_us, .. } => time_us,
                        RunMode::TestOpenLoop { time_us, .. } => time_us,
                        RunMode::Burst { time_us, .. } => time_us,
                        RunMode::Ramp { time_us, .. } => time_us,
                    };
                    if elapsed >= time_us as u64 {
                        self.freeze_outputs();
                        self.state = OperationState::Idle;
                        self.run_mode = None;
                    } else {
                        if let RunMode::Ramp { phase_t0, phase_t1, .. } = mode {
                            let ph = ramp_phase(phase_t0, phase_t1, elapsed, time_us as u64);
                            self.phase_setpoint = ph;
                            self.timers.begin_update();
                            self.timers.set_period_phase(
                                self.period,
                                ph,
                                false,
                                config.delay_compensation,
                            );
                            self.timers.end_update();
                        }
                    }
                }
            },
        }
    }

    /// The controller after the feedback-capture interrupt: while the
    /// interrupt is unmasked and a capture is pending, the measured period
    /// is adopted and the timers are reprogrammed for it at the current
    /// phase setpoint, inside one bracket.
    pub open spec fn spec_feedback_capture(self) -> Controller {
        if !self.timers.feedback_interrupt_enabled {
            self
        } else {
            match self.detector.capture {
                None => self,
                Some(m) => {
                    let regs = spec_timer_regs(
                        m,
                        self.phase_setpoint,
                        false,
                        self.config.delay_compensation,
                    );
                    Controller {
                        period: m,
                        detector: FrequencyDetector { capture: None },
                        timers: PhaseTimers {
                            staged: regs,
                            committed: regs,
                            update_deferred: false,
                            ..self.timers
                        },
                        ..self
                    }
                },
            }
        }
    }

    /// The feedback-capture interrupt handler body: cycle-by-cycle period
    /// correction between polls.
    pub fn on_feedback_capture(&mut self)
        requires
            old(self).wf(),
        ensures
            final(self).wf(),
            *final(self) == old(self).spec_feedback_capture(),
    {
        if !self.timers.feedback_interrupt_enabled {
            return;
        }
        let config = self.config;
        if let Some(measured) = self.detector.read() {
            self.timers.begin_update();
            self.timers.set_period_phase(
                measured,
                self.phase_setpoint,
                false,
                config.delay_compensation,
            );
            self.timers.end_update();
            self.period = measured;
        }
    }

    /// The overcurrent-edge interrupt handler body: acknowledge the edge.
    /// It forces no transition — the authoritative cutoff happens in
    /// `update`/`start`, which read the input level.
    pub fn on_overcurrent_edge(&mut self)
        requires
            old(self).wf(),
        ensures
            final(self).wf(),
            *final(self) == (Controller {
                ocd: OvercurrentInput { edge_pending: false, ..old(self).ocd },
                ..*old(self)
            }),
    {
        self.ocd.acknowledge_edge();
    }

    /// The platform observed the fault line at this level; a transition to
    /// active also latches the edge-pending flag, so a fault between polls
    /// is recorded.
    pub fn set_overcurrent_input(&mut self, active: bool)
        requires
            old(self).wf(),
        ensures
            final(self).wf(),
            *final(self) == (Controller {
                ocd: OvercurrentInput {
                    active,
                    edge_pending: old(self).ocd.edge_pending || (active && !old(self).ocd.active),
                },
                ..*old(self)
            }),
    {
        self.ocd.set_level(active);
    }

    /// A feedback edge arrived: the capture unit records its period,
    /// silently overwriting an unread capture.
    pub fn record_feedback_edge(&mut self, period: u16)
        requires
            old(self).wf(),
        ensures
            final(self).wf(),
            *final(self) == (Controller {
                detector: FrequencyDetector { capture: Some(period) },
                ..*old(self)
            }),
    {
        self.detector.record_capture(period);
    }

    /// Non-blocking poll of the capture unit: hand out the most recent
    /// feedback period since the last read, if any, clearing the capture
    /// flag.  A period that arrives before being read is silently
    /// overwritten; only the latest measurement is ever observable.
    pub fn read_frequency_detector(&mut self) -> (r: Option<u16>)
        requires
            old(self).wf(),
        ensures
            final(self).wf(),
            r == old(self).detector.capture,
            *final(self) == (Controller {
                detector: FrequencyDetector { capture: None::<u16> },
                ..*old(self)
            }),
    {
        self.detector.read()
    }

    /// True while the drive is producing output: any state but `Idle` and
    /// `Overcurrent`.
    pub fn is_running(&self) -> (r: bool)
        ensures
            r == spec_is_running(self.state),
    {
        match self.state {
            OperationState::Idle | OperationState::Overcurrent => false,
            _ => true,
        }
    }

    /// The instantaneous level of the overcurrent fault line (level, not
    /// latch: true while the line is active).
    pub fn overcurrent_status(&self) -> (r: bool)
        ensures
            r == self.ocd.active,
    {
        self.ocd.active
    }

    /// `clear_overcurrent` succeeds exactly when the fault line has
    /// returned to its inactive level and no run is in progress.
    pub open spec fn spec_clear_allowed(self) -> bool {
        !self.ocd.active && (self.state is Idle || self.state is Overcurrent)
    }

    /// The controller after a successful `clear_overcurrent`.
    pub open spec fn spec_clear(self) -> Controller {
        Controller { state: OperationState::Idle, run_mode: None, ..self }
    }

    /// Leave `Overcurrent`.  Succeeds — back to `Idle` — only once the
    /// fault line is inactive again; otherwise fails with no state change.
    pub fn clear_overcurrent(&mut self) -> (r: Result<(), NotClear>)
        requires
            old(self).wf(),
        ensures
            final(self).wf(),
            r is Ok <==> old(self).spec_clear_allowed(),
            r is Ok ==> *final(self) == old(self).spec_clear(),
            r is Err ==> *final(self) == *old(self),
    {
        if self.ocd.active {
            return Err(NotClear);
        }
        match self.state {
            OperationState::Idle | OperationState::Overcurrent => {
                self.state = OperationState::Idle;
                self.run_mode = None;
                Ok(())
            },
            _ => Err(NotClear),
        }
    }
}

/// Every transition preserves well-formedness: between calls the update
/// bracket is closed and the hardware always runs on the register image of
/// the controller's current period and phase setpoint — no intermediate or
/// partial register set is ever latched into effect.
pub proof fn lemma_transitions_preserve_wf(c: Controller, mode: RunMode, now: u64)
    requires
        c.wf(),
    ensures
        c.spec_start_allowed() ==> c.spec_start(mode, now).wf(),
        c.spec_update(now).wf(),
        c.spec_feedback_capture().wf(),
        c.spec_clear_allowed() ==> c.spec_clear().wf(),
{
}

/// A successful `start` leaves the controller in a state other than
/// `Idle`, so a second `start` — whatever its mode and however soon — is
/// rejected and, by `start`'s contract, changes nothing (`t0` included):
/// re-starting while running is refused rather than re-entrant.
pub proof fn lemma_restart_rejected(c: Controller, mode: RunMode, now: u64)
    requires
        c.wf(),
        c.spec_start_allowed(),
    ensures
        !c.spec_start(mode, now).spec_start_allowed(),
{
}

/// Once `Locking` observes a measurement within the allowed deviation of
/// the assumed period while the overcurrent input is inactive, the very
/// next state is `Running` — never `Overcurrent`, and the measurement is
/// adopted as the new period.
pub proof fn lemma_lock_enters_running(c: Controller, now: u64, m: u16)
    requires
        c.wf(),
        c.state is Locking,
        !c.ocd.active,
        c.detector.capture == Some(m),
        spec_within_deviation(c.period, m, c.config.allowed_period_deviation),
    ensures
        c.spec_update(now).state is Running,
        c.spec_update(now).period == m,
        c.spec_update(now).timers.feedback_interrupt_enabled,
{
}

/// If the overcurrent input is active, one `update` call from any running
/// state — `Locking`, `Running` or `RunningOpenLoop`, whatever the
/// feedback state — reaches `Overcurrent`, with the outputs frozen and the
/// feedback interrupt masked.
pub proof fn lemma_overcurrent_precedence(c: Controller, now: u64)
    requires
        c.wf(),
        spec_is_running(c.state),
        c.ocd.active,
    ensures
        c.spec_update(now).state is Overcurrent,
        !c.spec_update(now).timers.active,
        !c.spec_update(now).timers.feedback_interrupt_enabled,
        c.spec_update(now).wf(),
{
}

/// What `start` reaches depends only on the configuration and the carried
/// hardware inputs, not on how the controller became idle.
pub proof fn lemma_start_determined(c1: Controller, c2: Controller, m: RunMode, now: u64)
    requires
        c1.config == c2.config,
        c1.detector == c2.detector,
        c1.ocd == c2.ocd,
    ensures
        c1.spec_start(m, now) == c2.spec_start(m, now),
{
}

/// Round trip: `clear_overcurrent` followed immediately by `start` (with
/// the fault line inactive) reaches exactly the state that the same
/// `start` reaches from a controller that is already idle with the same
/// configuration and hardware inputs.
pub proof fn lemma_clear_then_start(c: Controller, idle: Controller, m: RunMode, now: u64)
    requires
        c.wf(),
        c.state is Overcurrent,
        !c.ocd.active,
        idle.wf(),
        idle.state is Idle,
        idle.config == c.config,
        idle.detector == c.detector,
        idle.ocd == c.ocd,
    ensures
        c.spec_clear().spec_start_allowed(),
        idle.spec_start_allowed(),
        c.spec_clear().spec_start(m, now) == idle.spec_start(m, now),
{
    lemma_start_determined(c.spec_clear(), idle, m, now);
}

} // verus!
