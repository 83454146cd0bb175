use vstd::prelude::*;
use crate::device::{
    DeviceCommand, DeviceSettings, FanPolicy, apply_commands, restore_commands, lemma_restore,
};

verus! {

/// Fan level (percent) forced during a run when the fan override is on.
pub const FORCED_FAN_LEVEL: u32 = 100;

/// Errors that end a calibration session.
#[derive(Clone, Copy, Debug, PartialEq, Eq, Structural)]
pub enum CalibrationError {
    /// The options are inconsistent; nothing was written to the device.
    Configuration,
    /// Another session already holds the device.
    DeviceBusy,
    /// Talking to the device failed and did not recover.
    Hardware,
}

/// Settings of one calibration run, fixed for the session's lifetime.
#[derive(Clone, Debug)]
pub struct CalibrationOptions {
    /// Pin the fan to a fixed high level during the run.
    pub fan_override: bool,
    /// Search increment (kHz).
    pub step: i32,
    /// Hard upper bound on tested frequencies (kHz).
    pub frequency_ceiling: u32,
    /// External stress program; `None` waits for a load started by hand.
    pub workload_command: Option<String>,
    /// Wait after applying a candidate before sampling telemetry (ms).
    pub voltage_settle_delay_ms: u64,
}

/// Options are consistent with a device whose lowest operating frequency is `min_frequency`.
pub open spec fn options_valid(step: i32, ceiling: u32, min_frequency: u32) -> bool {
    step > 0 && ceiling > 0 && ceiling >= min_frequency
}

/// Where a session stands in `new -> prepare -> test_point* -> cleanup`.
#[derive(Clone, Copy, Debug, PartialEq, Eq, Structural)]
pub enum Phase {
    Ready,
    Prepared,
    Finished,
}

/// State of one calibration session against one device.
pub struct CalibrationSession {
    options: CalibrationOptions,
    phase: Phase,
    saved: DeviceSettings,
}

impl CalibrationSession {
    pub closed spec fn spec_phase(&self) -> Phase {
        self.phase
    }

    /// The device settings taken at `prepare`, restored by `cleanup`.
    pub closed spec fn safe_point(&self) -> DeviceSettings {
        self.saved
    }

    pub closed spec fn spec_step(&self) -> i32 {
        self.options.step
    }

    pub closed spec fn spec_ceiling(&self) -> u32 {
        self.options.frequency_ceiling
    }

    pub closed spec fn spec_settle_ms(&self) -> u64 {
        self.options.voltage_settle_delay_ms
    }

    pub closed spec fn spec_fan_override(&self) -> bool {
        self.options.fan_override
    }

    /// Step and ceiling admit a search.
    pub open spec fn wf(&self) -> bool {
        self.spec_step() > 0 && self.spec_ceiling() > 0
    }

    /// Checks the options against the device's lowest operating frequency.
    /// Writes nothing to the device.
    pub fn new(options: CalibrationOptions, min_frequency: u32) -> (r: Result<
        CalibrationSession,
        CalibrationError,
    >)
        ensures
            r is Err <==> !options_valid(options.step, options.frequency_ceiling, min_frequency),
            r is Err ==> r == Err::<CalibrationSession, _>(CalibrationError::Configuration),
            r matches Ok(s) ==> {
                &&& s.wf()
                &&& s.spec_phase() == Phase::Ready
                &&& s.spec_step() == options.step
                &&& s.spec_ceiling() == options.frequency_ceiling
                &&& s.spec_settle_ms() == options.voltage_settle_delay_ms
                &&& s.spec_fan_override() == options.fan_override
            },
    {
        if options.step <= 0 || options.frequency_ceiling == 0 || options.frequency_ceiling
            < min_frequency {
            return Err(CalibrationError::Configuration);
        }
        let saved = DeviceSettings { fan: FanPolicy { manual: false, level: 0 }, lock: None };
        Ok(CalibrationSession { options, phase: Phase::Ready, saved })
    }

    pub fn options(&self) -> (r: &CalibrationOptions)
        ensures
            r.step == self.spec_step(),
            r.frequency_ceiling == self.spec_ceiling(),
            r.voltage_settle_delay_ms == self.spec_settle_ms(),
            r.fan_override == self.spec_fan_override(),
    {
        &self.options
    }

    pub fn phase(&self) -> (r: Phase)
        ensures
            r == self.spec_phase(),
    {
        self.phase
    }

    /// Takes the device: saves `current` as the safe point and returns the writes that
    /// set up the run (a fixed high fan level when the fan override is on).
    /// Fails with `DeviceBusy` if another session holds the device, or if this one
    /// has already been prepared.
    pub fn prepare(&mut self, current: DeviceSettings, held_elsewhere: bool) -> (r: Result<
        Vec<DeviceCommand>,
        CalibrationError,
    >)
        ensures
            r is Err <==> (held_elsewhere || old(self).spec_phase() != Phase::Ready),
            r is Err ==> r == Err::<Vec<DeviceCommand>, _>(CalibrationError::DeviceBusy)
                && *final(self) == *old(self),
            r matches Ok(cs) ==> {
                &&& final(self).spec_phase() == Phase::Prepared
                &&& final(self).safe_point() == current
                &&& cs@ == if old(self).spec_fan_override() {
                    seq![DeviceCommand::SetFan(FanPolicy { manual: true, level: FORCED_FAN_LEVEL })]
                } else {
                    Seq::<DeviceCommand>::empty()
                }
            },
            final(self).wf() == old(self).wf(),
            final(self).spec_step() == old(self).spec_step(),
            final(self).spec_ceiling() == old(self).spec_ceiling(),
            final(self).spec_settle_ms() == old(self).spec_settle_ms(),
            final(self).spec_fan_override() == old(self).spec_fan_override(),
    {
        if held_elsewhere || self.phase != Phase::Ready {
            return Err(CalibrationError::DeviceBusy);
        }
        self.saved = current;
        self.phase = Phase::Prepared;
        let mut cs: Vec<DeviceCommand> = Vec::new();
        if self.options.fan_override {
            cs.push(DeviceCommand::SetFan(FanPolicy { manual: true, level: FORCED_FAN_LEVEL }));
        }
        Ok(cs)
    }

    /// Gives the device back: returns the writes that restore the fan policy and clock
    /// lock saved by `prepare`. Outside the prepared phase it returns no writes, so a
    /// second call is a no-op.
    pub fn cleanup(&mut self) -> (r: Vec<DeviceCommand>)
        ensures
            old(self).spec_phase() == Phase::Prepared ==> {
                &&& r@ == restore_commands(old(self).safe_point())
                &&& forall|during: DeviceSettings|
                    #![trigger apply_commands(during, r@)]
                    apply_commands(during, r@) == old(self).safe_point()
            },
            old(self).spec_phase() != Phase::Prepared ==> r@.len() == 0,
            final(self).spec_phase() == if old(self).spec_phase() == Phase::Ready {
                Phase::Ready
            } else {
                Phase::Finished
            },
            final(self).safe_point() == old(self).safe_point(),
            final(self).wf() == old(self).wf(),
            final(self).spec_step() == old(self).spec_step(),
            final(self).spec_ceiling() == old(self).spec_ceiling(),
            final(self).spec_settle_ms() == old(self).spec_settle_ms(),
            final(self).spec_fan_override() == old(self).spec_fan_override(),
    {
        let mut cs: Vec<DeviceCommand> = Vec::new();
        if self.phase == Phase::Prepared {
            cs.push(DeviceCommand::SetFan(self.saved.fan));
            cs.push(DeviceCommand::SetLock(self.saved.lock));
            self.phase = Phase::Finished;
            assert(cs@ =~= restore_commands(self.saved));
            assert forall|during: DeviceSettings|
                #![trigger apply_commands(during, cs@)]
                apply_commands(during, cs@) == self.saved by {
                lemma_restore(self.saved, during);
            }
        }
        cs
    }
}

} // verus!
