use nvoclock::monitor::{Monitor, MonitorStep, Sample, WorkloadState, ACTIVITY_THRESHOLD, THROTTLE_SAMPLES};
use nvoclock::search::TestOutcome;
use nvoclock::settings::{reset_fails, ResetResult};

fn sample(frequency: u32, utilization: u32, workload: WorkloadState) -> Sample {
    Sample { responsive: true, frequency, utilization, workload }
}

#[test]
fn clean_run_under_load_is_stable() {
    let mut m = Monitor::new(1_900_000, 100);
    assert_eq!(m.observe(sample(1_900_000, 99, WorkloadState::Running)), MonitorStep::Continue);
    assert_eq!(m.observe(sample(1_905_000, 97, WorkloadState::Running)), MonitorStep::Continue);
    assert_eq!(m.observe(sample(1_900_000, 5, WorkloadState::Succeeded)), MonitorStep::Finished(TestOutcome::Stable));
    assert!(m.is_done());
}

#[test]
fn sustained_throttle_is_unstable() {
    let mut m = Monitor::new(1_900_000, 100);
    assert_eq!(m.observe(sample(1_800_000, 100, WorkloadState::Running)), MonitorStep::Continue);
    assert_eq!(m.observe(sample(1_800_000, 100, WorkloadState::Running)), MonitorStep::Continue);
    assert_eq!(m.observe(sample(1_800_000, 100, WorkloadState::Running)), MonitorStep::Finished(TestOutcome::Unstable));
    assert_eq!(THROTTLE_SAMPLES, 3);
}

#[test]
fn brief_dip_is_not_throttle() {
    let mut m = Monitor::new(1_900_000, 100);
    assert_eq!(m.observe(sample(1_800_000, 100, WorkloadState::Running)), MonitorStep::Continue);
    assert_eq!(m.observe(sample(1_800_000, 100, WorkloadState::Running)), MonitorStep::Continue);
    assert_eq!(m.observe(sample(1_900_000, 100, WorkloadState::Running)), MonitorStep::Continue);
    assert_eq!(m.observe(sample(1_800_000, 100, WorkloadState::Running)), MonitorStep::Continue);
    // Low frequency while idle is not throttling.
    assert_eq!(m.observe(sample(300_000, ACTIVITY_THRESHOLD - 1, WorkloadState::Running)), MonitorStep::Continue);
}

#[test]
fn unresponsive_device_is_driver_reset() {
    let mut m = Monitor::new(1_900_000, 100);
    let s = Sample { responsive: false, frequency: 0, utilization: 0, workload: WorkloadState::Running };
    assert_eq!(m.observe(s), MonitorStep::Finished(TestOutcome::DriverReset));
}

#[test]
fn failed_workload_is_reported() {
    let mut m = Monitor::new(1_900_000, 100);
    assert_eq!(m.observe(sample(1_900_000, 100, WorkloadState::Failed)), MonitorStep::Finished(TestOutcome::WorkloadFailure));
}

#[test]
fn timeout_without_load_is_inconclusive() {
    let mut m = Monitor::new(1_900_000, 2);
    assert_eq!(m.observe(sample(300_000, 0, WorkloadState::Running)), MonitorStep::Continue);
    assert_eq!(m.observe(sample(300_000, 0, WorkloadState::Running)), MonitorStep::Finished(TestOutcome::Inconclusive));
}

#[test]
fn timeout_with_load_is_stable() {
    let mut m = Monitor::new(1_900_000, 2);
    assert_eq!(m.observe(sample(1_900_000, 90, WorkloadState::Running)), MonitorStep::Continue);
    assert_eq!(m.observe(sample(1_900_000, 90, WorkloadState::Running)), MonitorStep::Finished(TestOutcome::Stable));
}

#[test]
fn workload_without_load_is_inconclusive() {
    let mut m = Monitor::new(1_900_000, 10);
    assert_eq!(m.observe(sample(300_000, 1, WorkloadState::Succeeded)), MonitorStep::Finished(TestOutcome::Inconclusive));
}

#[test]
fn reset_answers() {
    assert!(!reset_fails(ResetResult::Done, true));
    assert!(!reset_fails(ResetResult::Unsupported, false));
    assert!(reset_fails(ResetResult::Unsupported, true));
    assert!(reset_fails(ResetResult::Failed, false));
}
