use vstd::prelude::*;

verus! {

/// Cooler setting of the device: automatic or manual control, and a level in percent.
#[derive(Clone, Copy, Debug, PartialEq, Eq, Structural)]
pub struct FanPolicy {
    pub manual: bool,
    pub level: u32,
}

/// A clock lock pinning the GPU to one point of the V/F curve at an offset (kHz).
#[derive(Clone, Copy, Debug, PartialEq, Eq, Structural)]
pub struct ClockLock {
    pub index: usize,
    pub delta: i32,
}

/// The part of the device state that a calibration session may change.
#[derive(Clone, Copy, Debug, PartialEq, Eq, Structural)]
pub struct DeviceSettings {
    pub fan: FanPolicy,
    pub lock: Option<ClockLock>,
}

/// A write to the device, to be carried out by whoever holds the device handle.
#[derive(Clone, Copy, Debug, PartialEq, Eq, Structural)]
pub enum DeviceCommand {
    SetFan(FanPolicy),
    SetLock(Option<ClockLock>),
}

/// The settings after one command.
pub open spec fn apply_command(s: DeviceSettings, c: DeviceCommand) -> DeviceSettings {
    match c {
        DeviceCommand::SetFan(f) => DeviceSettings { fan: f, ..s },
        DeviceCommand::SetLock(l) => DeviceSettings { lock: l, ..s },
    }
}

/// The settings after a sequence of commands, carried out in order.
pub open spec fn apply_commands(s: DeviceSettings, cs: Seq<DeviceCommand>) -> DeviceSettings
    decreases cs.len(),
{
    if cs.len() == 0 {
        s
    } else {
        apply_commands(apply_command(s, cs[0]), cs.drop_first())
    }
}

/// The commands that bring any device back to `saved`.
pub open spec fn restore_commands(saved: DeviceSettings) -> Seq<DeviceCommand> {
    seq![DeviceCommand::SetFan(saved.fan), DeviceCommand::SetLock(saved.lock)]
}

/// Restoring puts the device back to the saved settings, whatever was written in between.
pub proof fn lemma_restore(saved: DeviceSettings, during: DeviceSettings)
    ensures
        apply_commands(during, restore_commands(saved)) == saved,
{
    let cs = restore_commands(saved);
    let s1 = apply_command(during, cs[0]);
    let s2 = apply_command(s1, cs[1]);
    assert(cs.drop_first().drop_first().len() == 0);
    assert(apply_commands(s2, cs.drop_first().drop_first()) == s2);
    assert(apply_commands(s1, cs.drop_first()) == s2);
}

/// An empty command list leaves the device as it is.
pub proof fn lemma_no_commands(s: DeviceSettings)
    ensures
        apply_commands(s, Seq::<DeviceCommand>::empty()) == s,
{
}

} // verus!
