use qcw_core::controller::Config;
use qcw_core::controller::Controller;
use qcw_core::controller::OperationState;
use qcw_core::controller::RunMode;
use qcw_core::timing::compute_hrtim_channel_timings;
use qcw_core::timing::PhaseFraction;
use qcw_core::timing::PHASE_UNIT;

fn config() -> Config {
    Config { delay_compensation: 10, startup_period: 500, allowed_period_deviation: 100 }
}

fn phase(raw: u32) -> PhaseFraction {
    PhaseFraction { raw }
}

fn closed_loop_mode() -> RunMode {
    RunMode::TestClosedLoop { phase: phase(PHASE_UNIT), time_us: 1000 }
}

#[test]
fn init_is_idle_and_frozen() {
    let c = Controller::init(config());
    assert_eq!(c.state, OperationState::Idle);
    assert!(c.run_mode.is_none());
    assert!(!c.is_running());
    assert!(!c.timers.active);
    assert!(!c.timers.feedback_interrupt_enabled);
    assert!(!c.overcurrent_status());
}

#[test]
fn start_test_closed_loop_scenario() {
    // explicit scenario: immediate Running, no locking phase, timers
    // unfrozen and programmed to period 500, phase 1.0
    let mut c = Controller::init(config());
    assert!(c.start(closed_loop_mode(), 0).is_ok());
    assert_eq!(c.state, OperationState::Running);
    assert!(c.is_running());
    assert!(c.timers.active);
    assert!(c.timers.outputs_enabled);
    assert!(c.timers.feedback_triggering);
    assert!(c.timers.feedback_interrupt_enabled);
    assert_eq!(c.period, 500);
    assert_eq!(c.t0, 0);
    // leg A at phase zero, leg C at the complement of 1.0 (also zero offset)
    assert_eq!(c.timers.committed.leg_a, compute_hrtim_channel_timings(500, phase(0)));
    assert_eq!(c.timers.committed.leg_c, compute_hrtim_channel_timings(500, phase(0)));
    assert_eq!(c.timers.committed.feedback_delay, 240);

    // after the duration elapses, one update returns to Idle and freezes
    c.update(999);
    assert_eq!(c.state, OperationState::Running);
    c.update(1000);
    assert_eq!(c.state, OperationState::Idle);
    assert!(c.run_mode.is_none());
    assert!(!c.timers.active);
    assert!(!c.timers.feedback_interrupt_enabled);
}

#[test]
fn start_open_loop_has_no_feedback_path() {
    let mut c = Controller::init(config());
    let mode = RunMode::TestOpenLoop { phase: phase(PHASE_UNIT / 2), time_us: 50 };
    assert!(c.start(mode, 7).is_ok());
    assert_eq!(c.state, OperationState::RunningOpenLoop);
    assert!(c.timers.active);
    assert!(!c.timers.feedback_triggering);
    assert!(!c.timers.feedback_interrupt_enabled);
    assert_eq!(c.t0, 7);
    c.update(57);
    assert_eq!(c.state, OperationState::Idle);
}

#[test]
fn second_start_rejected_and_keeps_t0() {
    // re-starting while running is refused, not re-entrant: the second
    // call fails and changes nothing, t0 included
    let mut c = Controller::init(config());
    assert!(c.start(closed_loop_mode(), 3).is_ok());
    let snapshot = c;
    assert!(c.start(closed_loop_mode(), 99).is_err());
    assert_eq!(c.t0, 3);
    assert_eq!(c, snapshot);
}

#[test]
fn start_rejected_while_fault_line_active() {
    let mut c = Controller::init(config());
    c.set_overcurrent_input(true);
    assert!(c.start(closed_loop_mode(), 0).is_err());
    assert_eq!(c.state, OperationState::Idle);
    assert!(!c.timers.active);
}

#[test]
fn burst_locks_then_runs() {
    // feedback stream [510, 495, 620] with deviation 100 against 500:
    // the first measurement locks immediately; later ones only retune
    let mut c = Controller::init(config());
    let mode = RunMode::Burst { phase: phase(PHASE_UNIT / 2), time_us: 100_000 };
    assert!(c.start(mode, 0).is_ok());
    assert_eq!(c.state, OperationState::Locking);
    assert!(c.timers.active);
    assert!(!c.timers.feedback_interrupt_enabled);
    assert_eq!(c.period, 500);

    c.record_feedback_edge(510);
    c.update(10);
    assert_eq!(c.state, OperationState::Running);
    assert_eq!(c.period, 510);
    assert!(c.timers.feedback_triggering);
    assert!(c.timers.feedback_interrupt_enabled);
    assert!(c.detector.capture.is_none());

    // once locked, the capture interrupt adopts any measurement
    c.record_feedback_edge(495);
    c.on_feedback_capture();
    assert_eq!(c.period, 495);
    c.record_feedback_edge(620);
    c.on_feedback_capture();
    assert_eq!(c.period, 620);
    assert_eq!(c.state, OperationState::Running);
}

#[test]
fn locking_rejects_out_of_range_measurement() {
    let mut c = Controller::init(config());
    let mode = RunMode::Burst { phase: phase(PHASE_UNIT / 2), time_us: 100_000 };
    assert!(c.start(mode, 0).is_ok());
    c.record_feedback_edge(601);
    c.update(10);
    assert_eq!(c.state, OperationState::Locking);
    assert_eq!(c.period, 500);
    // the out-of-range capture was consumed, not left pending
    assert!(c.detector.capture.is_none());
    // a measurement at the deviation bound locks
    c.record_feedback_edge(600);
    c.update(20);
    assert_eq!(c.state, OperationState::Running);
    assert_eq!(c.period, 600);
}

#[test]
fn locking_with_no_capture_waits() {
    let mut c = Controller::init(config());
    let mode = RunMode::Burst { phase: phase(PHASE_UNIT / 2), time_us: 100_000 };
    assert!(c.start(mode, 0).is_ok());
    c.update(10);
    c.update(20);
    assert_eq!(c.state, OperationState::Locking);
}

#[test]
fn capture_overwrite_keeps_latest_only() {
    // an unread capture is silently overwritten by the next edge
    let mut c = Controller::init(config());
    assert!(c.start(closed_loop_mode(), 0).is_ok());
    c.record_feedback_edge(510);
    c.record_feedback_edge(495);
    c.on_feedback_capture();
    assert_eq!(c.period, 495);
}

#[test]
fn capture_interrupt_masked_outside_running() {
    let mut c = Controller::init(config());
    c.record_feedback_edge(510);
    let before = c;
    c.on_feedback_capture();
    assert_eq!(c, before);
    assert_eq!(c.period, 0);
}

#[test]
fn overcurrent_cutoff_from_each_running_state() {
    // an active fault line turns any running state into Overcurrent in
    // one update call, freezing the outputs first
    let burst = RunMode::Burst { phase: phase(PHASE_UNIT / 2), time_us: 100_000 };
    let open = RunMode::TestOpenLoop { phase: phase(PHASE_UNIT / 2), time_us: 100_000 };

    for (mode, lock_first) in [(burst, false), (closed_loop_mode(), false), (burst, true), (open, false)] {
        let mut c = Controller::init(config());
        assert!(c.start(mode, 0).is_ok());
        if lock_first {
            c.record_feedback_edge(500);
            c.update(1);
            assert_eq!(c.state, OperationState::Running);
        }
        c.set_overcurrent_input(true);
        c.update(2);
        assert_eq!(c.state, OperationState::Overcurrent);
        assert!(!c.is_running());
        assert!(!c.timers.active);
        assert!(!c.timers.feedback_triggering);
        assert!(!c.timers.feedback_interrupt_enabled);
    }
}

#[test]
fn overcurrent_precedence_over_lock() {
    // even with a lockable measurement pending, the fault wins
    let mut c = Controller::init(config());
    let mode = RunMode::Burst { phase: phase(PHASE_UNIT / 2), time_us: 100_000 };
    assert!(c.start(mode, 0).is_ok());
    c.record_feedback_edge(500);
    c.set_overcurrent_input(true);
    c.update(1);
    assert_eq!(c.state, OperationState::Overcurrent);
}

#[test]
fn overcurrent_state_persists_until_cleared() {
    let mut c = Controller::init(config());
    assert!(c.start(closed_loop_mode(), 0).is_ok());
    c.set_overcurrent_input(true);
    c.update(1);
    assert_eq!(c.state, OperationState::Overcurrent);
    // updates change nothing, even past the mode's duration
    c.update(5000);
    assert_eq!(c.state, OperationState::Overcurrent);
    // starts are refused while latched
    assert!(c.start(closed_loop_mode(), 5001).is_err());
    // clearing fails while the line is still active
    assert!(c.clear_overcurrent().is_err());
    assert_eq!(c.state, OperationState::Overcurrent);
    // once the line is inactive, clearing succeeds
    c.set_overcurrent_input(false);
    assert!(c.clear_overcurrent().is_ok());
    assert_eq!(c.state, OperationState::Idle);
    assert!(c.run_mode.is_none());
}

#[test]
fn clear_rejected_while_running() {
    let mut c = Controller::init(config());
    assert!(c.start(closed_loop_mode(), 0).is_ok());
    assert!(c.clear_overcurrent().is_err());
    assert_eq!(c.state, OperationState::Running);
}

#[test]
fn clear_then_start_matches_start_from_idle() {
    // round trip: clear_overcurrent then start reaches the state start
    // alone reaches from Idle
    let mut faulted = Controller::init(config());
    assert!(faulted.start(closed_loop_mode(), 0).is_ok());
    faulted.set_overcurrent_input(true);
    faulted.update(1);
    assert_eq!(faulted.state, OperationState::Overcurrent);
    faulted.set_overcurrent_input(false);
    assert!(faulted.clear_overcurrent().is_ok());
    assert!(faulted.start(closed_loop_mode(), 42).is_ok());

    let mut fresh = Controller::init(config());
    assert!(fresh.start(closed_loop_mode(), 42).is_ok());

    // the edge-pending flag still records the old fault edge; everything
    // the run depends on is identical
    assert_eq!(faulted.state, fresh.state);
    assert_eq!(faulted.run_mode, fresh.run_mode);
    assert_eq!(faulted.t0, fresh.t0);
    assert_eq!(faulted.period, fresh.period);
    assert_eq!(faulted.phase_setpoint, fresh.phase_setpoint);
    assert_eq!(faulted.timers, fresh.timers);
    faulted.on_overcurrent_edge();
    assert_eq!(faulted, fresh);
}

#[test]
fn update_in_idle_changes_nothing() {
    let mut c = Controller::init(config());
    let before = c;
    c.update(100);
    assert_eq!(c, before);
}

#[test]
fn ramp_interpolates_phase_across_run() {
    let mut c = Controller::init(config());
    let mode = RunMode::Ramp { phase_t0: phase(0), phase_t1: phase(PHASE_UNIT), time_us: 1000 };
    assert!(c.start(mode, 0).is_ok());
    assert_eq!(c.state, OperationState::Locking);
    assert_eq!(c.phase_setpoint, phase(0));
    c.record_feedback_edge(500);
    c.update(0);
    assert_eq!(c.state, OperationState::Running);

    c.update(500);
    assert_eq!(c.phase_setpoint, phase(PHASE_UNIT / 2));
    assert_eq!(c.timers.committed.leg_c, compute_hrtim_channel_timings(500, phase(PHASE_UNIT / 2)));

    c.update(750);
    assert_eq!(c.phase_setpoint, phase(PHASE_UNIT / 4 * 3));

    c.update(1000);
    assert_eq!(c.state, OperationState::Idle);
    assert!(!c.timers.active);
}

#[test]
fn ramp_downward_interpolates_toward_end() {
    let mut c = Controller::init(config());
    let mode = RunMode::Ramp { phase_t0: phase(PHASE_UNIT), phase_t1: phase(0), time_us: 1000 };
    assert!(c.start(mode, 0).is_ok());
    c.record_feedback_edge(500);
    c.update(0);
    assert_eq!(c.state, OperationState::Running);
    c.update(250);
    assert_eq!(c.phase_setpoint, phase(PHASE_UNIT / 4 * 3));
}

#[test]
fn burst_ends_after_duration() {
    let mut c = Controller::init(config());
    let mode = RunMode::Burst { phase: phase(PHASE_UNIT / 2), time_us: 200 };
    assert!(c.start(mode, 0).is_ok());
    c.record_feedback_edge(500);
    c.update(1);
    assert_eq!(c.state, OperationState::Running);
    c.update(199);
    assert_eq!(c.state, OperationState::Running);
    c.update(201);
    assert_eq!(c.state, OperationState::Idle);
    assert!(!c.timers.active);
}

#[test]
fn delay_compensation_saturates() {
    let cfg = Config { delay_compensation: 300, startup_period: 500, allowed_period_deviation: 100 };
    let mut c = Controller::init(cfg);
    assert!(c.start(closed_loop_mode(), 0).is_ok());
    assert_eq!(c.timers.committed.feedback_delay, 0);
}

#[test]
fn frequency_detector_read_is_consuming() {
    let mut c = Controller::init(config());
    assert_eq!(c.read_frequency_detector(), None);
    c.record_feedback_edge(480);
    c.record_feedback_edge(520);
    assert_eq!(c.read_frequency_detector(), Some(520));
    assert_eq!(c.read_frequency_detector(), None);
}

#[test]
fn overcurrent_edge_latched_between_polls() {
    let mut c = Controller::init(config());
    c.set_overcurrent_input(true);
    c.set_overcurrent_input(false);
    // the level is gone but the edge was recorded until acknowledged
    assert!(c.ocd.edge_pending);
    c.on_overcurrent_edge();
    assert!(!c.ocd.edge_pending);
}
