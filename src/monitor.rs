use vstd::prelude::*;
use crate::search::TestOutcome;

verus! {

/// Utilization (percent) at which the GPU counts as under load.
pub const ACTIVITY_THRESHOLD: u32 = 80;

/// Consecutive loaded samples below the candidate frequency that count as throttling.
pub const THROTTLE_SAMPLES: u32 = 3;

/// State of the supervised workload process at a sample.
#[derive(Clone, Copy, Debug, PartialEq, Eq, Structural)]
pub enum WorkloadState {
    /// Still running, or no process is supervised (the load is started by hand).
    Running,
    /// Exited reporting success.
    Succeeded,
    /// Exited reporting failure.
    Failed,
}

/// One poll of the device's telemetry during a test cycle.
#[derive(Clone, Copy, Debug, PartialEq, Eq, Structural)]
pub struct Sample {
    /// The device answered the telemetry request.
    pub responsive: bool,
    /// Actual graphics frequency (kHz).
    pub frequency: u32,
    /// Graphics utilization (percent).
    pub utilization: u32,
    pub workload: WorkloadState,
}

/// What the monitor decides after a sample.
#[derive(Clone, Copy, Debug, PartialEq, Eq, Structural)]
pub enum MonitorStep {
    /// Keep polling.
    Continue,
    /// The test cycle is over with this outcome.
    Finished(TestOutcome),
}

/// Watches one test cycle at a candidate frequency and derives its verdict.
pub struct Monitor {
    target: u32,
    max_samples: u32,
    samples: u32,
    throttled: u32,
    loaded: bool,
    done: bool,
}

/// The sample shows the GPU under load.
pub open spec fn under_load(s: Sample) -> bool {
    s.utilization >= ACTIVITY_THRESHOLD
}

impl Monitor {
    pub closed spec fn spec_target(&self) -> u32 { self.target }
    pub closed spec fn spec_max_samples(&self) -> u32 { self.max_samples }
    /// Samples taken so far.
    pub closed spec fn spec_samples(&self) -> u32 { self.samples }
    /// Consecutive loaded samples below the target, up to the last one.
    pub closed spec fn spec_throttled(&self) -> u32 { self.throttled }
    /// Some sample so far showed load.
    pub closed spec fn spec_loaded(&self) -> bool { self.loaded }
    pub closed spec fn spec_done(&self) -> bool { self.done }

    pub closed spec fn wf(&self) -> bool {
        &&& self.max_samples > 0
        &&& !self.done ==> self.samples < self.max_samples && self.throttled < THROTTLE_SAMPLES
    }

    /// A monitor for a test at `target` (kHz) that gives up after `max_samples` polls.
    pub fn new(target: u32, max_samples: u32) -> (r: Monitor)
        requires
            max_samples > 0,
        ensures
            r.wf(),
            r.spec_target() == target,
            r.spec_max_samples() == max_samples,
            r.spec_samples() == 0,
            r.spec_throttled() == 0,
            !r.spec_loaded(),
            !r.spec_done(),
    {
        Monitor { target, max_samples, samples: 0, throttled: 0, loaded: false, done: false }
    }

    pub fn is_done(&self) -> (r: bool)
        ensures
            r == self.spec_done(),
    {
        self.done
    }

    /// Takes one sample. In order: an unresponsive device is a driver reset; load held
    /// below the target for `THROTTLE_SAMPLES` samples in a row is unstable; a failed
    /// workload is a workload failure; a workload that succeeded is stable if load was
    /// seen and inconclusive if not; after `max_samples` samples the cycle ends, stable
    /// if load was seen and inconclusive if not. Otherwise polling goes on.
    pub fn observe(&mut self, s: Sample) -> (r: MonitorStep)
        requires
            old(self).wf(),
            !old(self).spec_done(),
        ensures
            final(self).wf(),
            final(self).spec_target() == old(self).spec_target(),
            final(self).spec_max_samples() == old(self).spec_max_samples(),
            final(self).spec_done() <==> r is Finished,
            !s.responsive ==> r == MonitorStep::Finished(TestOutcome::DriverReset),
            s.responsive ==> {
                let loaded = old(self).spec_loaded() || under_load(s);
                let throttled: int = if under_load(s) && s.frequency < old(self).spec_target() {
                    old(self).spec_throttled() + 1
                } else {
                    0
                };
                let samples = old(self).spec_samples() + 1;
                &&& final(self).spec_loaded() == loaded
                &&& r == if throttled >= THROTTLE_SAMPLES {
                    MonitorStep::Finished(TestOutcome::Unstable)
                } else if s.workload == WorkloadState::Failed {
                    MonitorStep::Finished(TestOutcome::WorkloadFailure)
                } else if s.workload == WorkloadState::Succeeded || samples >= old(self).spec_max_samples() {
                    MonitorStep::Finished(
                        if loaded { TestOutcome::Stable } else { TestOutcome::Inconclusive },
                    )
                } else {
                    MonitorStep::Continue
                }
                &&& r == MonitorStep::Continue ==> {
                    &&& final(self).spec_samples() == samples
                    &&& final(self).spec_throttled() == throttled
                }
            },
    {
        if !s.responsive {
            self.done = true;
            return MonitorStep::Finished(TestOutcome::DriverReset);
        }
        let busy = s.utilization >= ACTIVITY_THRESHOLD;
        if busy {
            self.loaded = true;
        }
        if busy && s.frequency < self.target {
            self.throttled = self.throttled + 1;
        } else {
            self.throttled = 0;
        }
        self.samples = self.samples + 1;
        let r = if self.throttled >= THROTTLE_SAMPLES {
            MonitorStep::Finished(TestOutcome::Unstable)
        } else if s.workload == WorkloadState::Failed {
            MonitorStep::Finished(TestOutcome::WorkloadFailure)
        } else if s.workload == WorkloadState::Succeeded || self.samples >= self.max_samples {
            MonitorStep::Finished(if self.loaded { TestOutcome::Stable } else { TestOutcome::Inconclusive })
        } else {
            MonitorStep::Continue
        };
        if r != MonitorStep::Continue {
            self.done = true;
        }
        r
    }
}

} // verus!
