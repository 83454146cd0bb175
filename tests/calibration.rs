use nvoclock::device::{ClockLock, DeviceCommand, DeviceSettings, FanPolicy};
use nvoclock::search::{Found, PointSearch, SearchStep, Stage, TestOutcome};
use nvoclock::session::{CalibrationError, CalibrationOptions, CalibrationSession, Phase, FORCED_FAN_LEVEL};
use nvoclock::sweep::{CurvePoint, Sweep, SweepError};

fn options(step: i32, ceiling: u32) -> CalibrationOptions {
    CalibrationOptions {
        fan_override: false,
        step,
        frequency_ceiling: ceiling,
        workload_command: None,
        voltage_settle_delay_ms: 0,
    }
}

fn prepared(opts: CalibrationOptions) -> CalibrationSession {
    let mut s = CalibrationSession::new(opts, 0).unwrap();
    s.prepare(idle_device(), false).unwrap();
    s
}

fn idle_device() -> DeviceSettings {
    DeviceSettings { fan: FanPolicy { manual: false, level: 40 }, lock: None }
}

fn apply(dev: &mut DeviceSettings, cmds: &[DeviceCommand]) {
    for c in cmds {
        match *c {
            DeviceCommand::SetFan(f) => dev.fan = f,
            DeviceCommand::SetLock(l) => dev.lock = l,
        }
    }
}

/// Drives one point search against a mock tester; returns the final step and the
/// deltas handed to the tester, in order.
fn drive(
    search: &mut PointSearch,
    first: SearchStep,
    mut tester: impl FnMut(i32) -> TestOutcome,
    responsive: bool,
) -> (SearchStep, Vec<i32>) {
    let mut tested = Vec::new();
    let mut step = first;
    loop {
        step = match step {
            SearchStep::Test { delta, .. } => {
                tested.push(delta);
                search.on_outcome(tester(delta))
            }
            SearchStep::Recover => search.on_recovery(responsive),
            done => return (done, tested),
        };
    }
}

fn stable_up_to(limit: i32) -> impl FnMut(i32) -> TestOutcome {
    move |d| if d <= limit { TestOutcome::Stable } else { TestOutcome::Unstable }
}

#[test]
fn search_returns_highest_stable_delta() {
    let s = prepared(options(15000, 2_000_000));
    let (mut search, first) = s.test_point(7, 1_000_000, 1_900_000, 0);
    let (end, tested) = drive(&mut search, first, stable_up_to(30000), true);
    assert_eq!(end, SearchStep::Done(Some(Found { delta: 30000, frequency: 1_930_000 })));
    assert_eq!(tested, vec![0, 15000, 30000, 45000]);
}

#[test]
fn search_unstable_at_start_gives_none() {
    let s = prepared(options(15000, 2_000_000));
    let (mut search, first) = s.test_point(7, 1_000_000, 1_900_000, 0);
    let (end, tested) = drive(&mut search, first, |_| TestOutcome::Unstable, true);
    assert_eq!(end, SearchStep::Done(None));
    assert_eq!(tested, vec![0]);
}

#[test]
fn driver_reset_counts_as_unstable() {
    let s = prepared(options(15000, 2_000_000));
    let (mut search, first) = s.test_point(7, 1_000_000, 1_900_000, 0);
    let mut calls = 0;
    let tester = move |_d: i32| {
        calls += 1;
        if calls == 3 { TestOutcome::DriverReset } else { TestOutcome::Stable }
    };
    let (end, tested) = drive(&mut search, first, tester, true);
    assert_eq!(end, SearchStep::Done(Some(Found { delta: 15000, frequency: 1_915_000 })));
    assert_eq!(tested, vec![0, 15000, 30000]);
    assert_eq!(search.stage(), Stage::Over);
}

#[test]
fn driver_reset_without_recovery_is_fatal() {
    let s = prepared(options(15000, 2_000_000));
    let (mut search, first) = s.test_point(7, 1_000_000, 1_900_000, 0);
    let (end, _) = drive(&mut search, first, |_| TestOutcome::DriverReset, false);
    assert_eq!(end, SearchStep::Failed(CalibrationError::Hardware));
}

#[test]
fn sweep_aborts_keeping_earlier_points() {
    let mut session = CalibrationSession::new(options(15000, 2_000_000), 0).unwrap();
    let mut dev = idle_device();
    let before = dev;
    let setup = session.prepare(dev, false).unwrap();
    apply(&mut dev, &setup);
    let points = vec![
        CurvePoint { index: 5, voltage: 1_050_000, frequency: 1_900_000, delta: 0 },
        CurvePoint { index: 4, voltage: 1_000_000, frequency: 1_850_000, delta: 0 },
        CurvePoint { index: 3, voltage: 950_000, frequency: 1_800_000, delta: 0 },
    ];
    let mut sweep = Sweep::new(points);
    while let Some(p) = sweep.next_point() {
        let (mut search, first) = session.test_point(p.index, p.voltage, p.frequency, p.delta);
        let index = p.index;
        let (end, tested) = drive(
            &mut search,
            first,
            |d| if index == 4 { TestOutcome::HardwareError } else if d <= 15000 { TestOutcome::Stable } else { TestOutcome::Unstable },
            true,
        );
        if let Some(&last) = tested.last() {
            dev.lock = Some(ClockLock { index, delta: last });
        }
        let outcome = match end {
            SearchStep::Done(r) => Ok(r),
            SearchStep::Failed(e) => Err(e),
            _ => unreachable!(),
        };
        sweep.record(outcome);
    }
    let (restore, results, error) = session.conclude(sweep);
    assert_eq!(restore.len(), 2);
    apply(&mut dev, &restore);
    assert_eq!(dev, before);
    assert_eq!(results, vec![CurvePoint { index: 5, voltage: 1_050_000, frequency: 1_915_000, delta: 15000 }]);
    assert_eq!(error, Some(SweepError { index: 4, error: CalibrationError::Hardware }));
    assert_eq!(session.phase(), Phase::Finished);
    assert!(session.cleanup().is_empty());
}

#[test]
fn cleanup_restores_fan_and_lock() {
    let mut opts = options(10000, 2_000_000);
    opts.fan_override = true;
    let mut session = CalibrationSession::new(opts, 0).unwrap();
    let before = DeviceSettings {
        fan: FanPolicy { manual: false, level: 35 },
        lock: Some(ClockLock { index: 12, delta: -5000 }),
    };
    let mut dev = before;
    let setup = session.prepare(dev, false).unwrap();
    assert_eq!(setup, vec![DeviceCommand::SetFan(FanPolicy { manual: true, level: FORCED_FAN_LEVEL })]);
    apply(&mut dev, &setup);
    assert_eq!(dev.fan, FanPolicy { manual: true, level: 100 });
    dev.lock = Some(ClockLock { index: 60, delta: 90000 });
    let restore = session.cleanup();
    apply(&mut dev, &restore);
    assert_eq!(dev, before);
}

#[test]
fn second_cleanup_is_noop() {
    let mut session = prepared(options(10000, 2_000_000));
    let first = session.cleanup();
    assert_eq!(first.len(), 2);
    let second = session.cleanup();
    assert!(second.is_empty());
    assert_eq!(session.phase(), Phase::Finished);
}

#[test]
fn cleanup_before_prepare_writes_nothing() {
    let mut session = CalibrationSession::new(options(10000, 2_000_000), 0).unwrap();
    assert!(session.cleanup().is_empty());
    assert_eq!(session.phase(), Phase::Ready);
}

#[test]
fn new_rejects_inconsistent_options() {
    assert_eq!(CalibrationSession::new(options(0, 2_000_000), 0).err(), Some(CalibrationError::Configuration));
    assert_eq!(CalibrationSession::new(options(-15000, 2_000_000), 0).err(), Some(CalibrationError::Configuration));
    assert_eq!(CalibrationSession::new(options(15000, 0), 0).err(), Some(CalibrationError::Configuration));
    assert_eq!(CalibrationSession::new(options(15000, 200_000), 300_000).err(), Some(CalibrationError::Configuration));
    assert!(CalibrationSession::new(options(15000, 300_000), 300_000).is_ok());
}

#[test]
fn prepare_fails_when_device_busy() {
    let mut session = CalibrationSession::new(options(15000, 2_000_000), 0).unwrap();
    assert_eq!(session.prepare(idle_device(), true), Err(CalibrationError::DeviceBusy));
    assert_eq!(session.phase(), Phase::Ready);
    assert!(session.prepare(idle_device(), false).is_ok());
    assert_eq!(session.prepare(idle_device(), false), Err(CalibrationError::DeviceBusy));
}

#[test]
fn search_stops_at_ceiling() {
    let s = prepared(options(15000, 1_930_000));
    let (mut search, first) = s.test_point(1, 900_000, 1_900_000, 0);
    let (end, tested) = drive(&mut search, first, |_| TestOutcome::Stable, true);
    assert_eq!(end, SearchStep::Done(Some(Found { delta: 30000, frequency: 1_930_000 })));
    assert_eq!(tested, vec![0, 15000, 30000]);
    let probes: Vec<i32> = search.probes().iter().map(|p| p.delta).collect();
    assert_eq!(probes, vec![0, 15000, 30000]);
    assert!(search.probes().iter().all(|p| p.stable));
}

#[test]
fn search_start_above_ceiling_tests_nothing() {
    let s = prepared(options(15000, 1_000_000));
    let (_, first) = s.test_point(1, 900_000, 1_900_000, 0);
    assert_eq!(first, SearchStep::Done(None));
}

#[test]
fn search_negative_start_frequency_is_rejected() {
    let s = prepared(options(15000, 1_000_000));
    let (_, first) = s.test_point(1, 900_000, 100, -200);
    assert_eq!(first, SearchStep::Failed(CalibrationError::Configuration));
}

#[test]
fn first_step_tests_starting_delta_with_settle_delay() {
    let mut opts = options(15000, 2_000_000);
    opts.voltage_settle_delay_ms = 2000;
    let s = prepared(opts);
    let (_, first) = s.test_point(9, 1_000_000, 1_900_000, -30000);
    assert_eq!(
        first,
        SearchStep::Test { index: 9, voltage: 1_000_000, delta: -30000, frequency: 1_870_000, settle_ms: 2000 }
    );
}

#[test]
fn inconclusive_is_retried_before_failing() {
    let s = prepared(options(15000, 2_000_000));
    let (mut search, first) = s.test_point(1, 900_000, 1_900_000, 0);
    let mut seen = 0;
    let tester = move |d: i32| {
        if d == 0 {
            TestOutcome::Stable
        } else {
            seen += 1;
            if seen <= 2 { TestOutcome::Inconclusive } else { TestOutcome::Stable }
        }
    };
    let (end, tested) = drive(&mut search, first, tester, true);
    // 15000 is read twice as inconclusive, then holds; every later candidate holds too.
    assert_eq!(&tested[..4], &[0, 15000, 15000, 15000]);
    assert_eq!(end, SearchStep::Done(Some(Found { delta: 90000, frequency: 1_990_000 })));
}

#[test]
fn repeated_inconclusive_counts_as_unstable() {
    let s = prepared(options(15000, 2_000_000));
    let (mut search, first) = s.test_point(1, 900_000, 1_900_000, 0);
    let tester = |d: i32| if d == 0 { TestOutcome::Stable } else { TestOutcome::Inconclusive };
    let (end, tested) = drive(&mut search, first, tester, true);
    assert_eq!(tested, vec![0, 15000, 15000, 15000]);
    assert_eq!(end, SearchStep::Done(Some(Found { delta: 0, frequency: 1_900_000 })));
}

#[test]
fn workload_failure_counts_as_unstable() {
    let s = prepared(options(15000, 2_000_000));
    let (mut search, first) = s.test_point(1, 900_000, 1_900_000, 0);
    let tester = |d: i32| if d < 15000 { TestOutcome::Stable } else { TestOutcome::WorkloadFailure };
    let (end, _) = drive(&mut search, first, tester, true);
    assert_eq!(end, SearchStep::Done(Some(Found { delta: 0, frequency: 1_900_000 })));
}

#[test]
fn sweep_carries_delta_forward() {
    let points = vec![
        CurvePoint { index: 9, voltage: 1_100_000, frequency: 1_950_000, delta: 5000 },
        CurvePoint { index: 8, voltage: 1_050_000, frequency: 1_900_000, delta: 0 },
        CurvePoint { index: 7, voltage: 1_000_000, frequency: 1_850_000, delta: 0 },
    ];
    let mut sweep = Sweep::new(points);
    assert_eq!(sweep.next_point().unwrap().delta, 5000);
    sweep.record(Ok(Some(Found { delta: 45000, frequency: 1_995_000 })));
    assert_eq!(sweep.next_point().unwrap(), CurvePoint { index: 8, voltage: 1_050_000, frequency: 1_900_000, delta: 45000 });
    sweep.record(Ok(None));
    assert_eq!(sweep.next_point().unwrap().delta, 45000);
    sweep.record(Ok(Some(Found { delta: 30000, frequency: 1_880_000 })));
    assert_eq!(sweep.next_point(), None);
    assert_eq!(sweep.error(), None);
    assert_eq!(sweep.results().len(), 2);
    let (results, error) = sweep.finish();
    assert_eq!(error, None);
    assert_eq!(
        results,
        vec![
            CurvePoint { index: 7, voltage: 1_000_000, frequency: 1_880_000, delta: 30000 },
            CurvePoint { index: 9, voltage: 1_100_000, frequency: 1_995_000, delta: 45000 },
        ]
    );
}

#[test]
fn empty_sweep_has_nothing_to_test() {
    let sweep = Sweep::new(Vec::new());
    assert_eq!(sweep.next_point(), None);
    let (results, error) = sweep.finish();
    assert!(results.is_empty());
    assert_eq!(error, None);
}
