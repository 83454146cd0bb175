use vstd::prelude::*;
use crate::text::str_eq;

verus! {

/// A GPU as listed to the user.
#[derive(Clone, Debug)]
pub struct GpuDescriptor {
    pub name: String,
}

/// How reports are written.
#[derive(Clone, Copy, Debug, PartialEq, Eq, Structural)]
pub enum OutputFormat {
    Human,
    Json,
}

/// A group of overclocking settings that can be reset on its own.
#[derive(Clone, Copy, Debug, PartialEq, Eq, Structural)]
pub enum ResetSettings {
    VoltageBoost,
    SensorLimits,
    PowerLimits,
    CoolerLevels,
    VfpDeltas,
    VfpLock,
    PStateDeltas,
    Overvolt,
}

pub open spec fn output_format_name(f: OutputFormat) -> Seq<char> {
    match f {
        OutputFormat::Human => "human"@,
        OutputFormat::Json => "json"@,
    }
}

pub open spec fn reset_settings_name(r: ResetSettings) -> Seq<char> {
    match r {
        ResetSettings::VoltageBoost => "voltage-boost"@,
        ResetSettings::SensorLimits => "thermal"@,
        ResetSettings::PowerLimits => "power"@,
        ResetSettings::CoolerLevels => "cooler"@,
        ResetSettings::VfpDeltas => "vfp"@,
        ResetSettings::VfpLock => "lock"@,
        ResetSettings::PStateDeltas => "pstate"@,
        ResetSettings::Overvolt => "overvolt"@,
    }
}

/// Every reset setting, in the order they are applied by a full reset.
pub open spec fn all_reset_settings() -> Seq<ResetSettings> {
    seq![
        ResetSettings::VoltageBoost,
        ResetSettings::SensorLimits,
        ResetSettings::PowerLimits,
        ResetSettings::CoolerLevels,
        ResetSettings::VfpDeltas,
        ResetSettings::VfpLock,
        ResetSettings::PStateDeltas,
        ResetSettings::Overvolt,
    ]
}

impl OutputFormat {
    /// Parses a format name.
    pub fn from_str(s: &str) -> (r: Result<OutputFormat, &'static str>)
        ensures
            r matches Ok(f) ==> output_format_name(f) == s@,
            r is Err <==> (forall|f: OutputFormat| output_format_name(f) != s@),
            r is Err ==> r == Err::<OutputFormat, &'static str>("unknown output format"),
    {
        if str_eq(s, "human") {
            assert(output_format_name(OutputFormat::Human) == s@);
            Ok(OutputFormat::Human)
        } else if str_eq(s, "json") {
            assert(output_format_name(OutputFormat::Json) == s@);
            Ok(OutputFormat::Json)
        } else {
            assert forall|f: OutputFormat| output_format_name(f) != s@ by {
                match f {
                    OutputFormat::Human => {},
                    OutputFormat::Json => {},
                }
            }
            Err("unknown output format")
        }
    }

    pub fn to_str(&self) -> (r: &'static str)
        ensures
            r@ == output_format_name(*self),
    {
        match self {
            OutputFormat::Human => "human",
            OutputFormat::Json => "json",
        }
    }

    /// The accepted format names.
    pub fn possible_values() -> (r: Vec<&'static str>)
        ensures
            r@.len() == 2,
            r@[0]@ == output_format_name(OutputFormat::Human),
            r@[1]@ == output_format_name(OutputFormat::Json),
    {
        vec!["human", "json"]
    }
}

impl ResetSettings {
    /// Parses a setting name.
    pub fn from_str(s: &str) -> (r: Result<ResetSettings, &'static str>)
        ensures
            r matches Ok(v) ==> reset_settings_name(v) == s@,
            r is Err <==> (forall|v: ResetSettings| reset_settings_name(v) != s@),
            r is Err ==> r == Err::<ResetSettings, &'static str>("unknown setting"),
    {
        let all = ResetSettings::possible_values_typed();
        let mut i: usize = 0;
        while i < all.len()
            invariant
                all@ == all_reset_settings(),
                i <= all@.len(),
                forall|j: int| 0 <= j < i ==> reset_settings_name(#[trigger] all@[j]) != s@,
            decreases all@.len() - i,
        {
            if str_eq(s, all[i].to_str()) {
                return Ok(all[i]);
            }
            i = i + 1;
        }
        assert forall|v: ResetSettings| reset_settings_name(v) != s@ by {
            let k: int = match v {
                ResetSettings::VoltageBoost => 0,
                ResetSettings::SensorLimits => 1,
                ResetSettings::PowerLimits => 2,
                ResetSettings::CoolerLevels => 3,
                ResetSettings::VfpDeltas => 4,
                ResetSettings::VfpLock => 5,
                ResetSettings::PStateDeltas => 6,
                ResetSettings::Overvolt => 7,
            };
            assert(all@[k] == v);
        }
        Err("unknown setting")
    }

    pub fn to_str(&self) -> (r: &'static str)
        ensures
            r@ == reset_settings_name(*self),
    {
        match self {
            ResetSettings::VoltageBoost => "voltage-boost",
            ResetSettings::SensorLimits => "thermal",
            ResetSettings::PowerLimits => "power",
            ResetSettings::CoolerLevels => "cooler",
            ResetSettings::VfpDeltas => "vfp",
            ResetSettings::VfpLock => "lock",
            ResetSettings::PStateDeltas => "pstate",
            ResetSettings::Overvolt => "overvolt",
        }
    }

    /// Every setting, in the order a full reset applies them.
    pub fn possible_values_typed() -> (r: Vec<ResetSettings>)
        ensures
            r@ == all_reset_settings(),
    {
        let r = vec![
            ResetSettings::VoltageBoost,
            ResetSettings::SensorLimits,
            ResetSettings::PowerLimits,
            ResetSettings::CoolerLevels,
            ResetSettings::VfpDeltas,
            ResetSettings::VfpLock,
            ResetSettings::PStateDeltas,
            ResetSettings::Overvolt,
        ];
        assert(r@ =~= all_reset_settings());
        r
    }

    /// The accepted setting names, in the same order.
    pub fn possible_values() -> (r: Vec<&'static str>)
        ensures
            r@.len() == all_reset_settings().len(),
            forall|i: int| 0 <= i < r@.len() ==> (#[trigger] r@[i])@ == reset_settings_name(all_reset_settings()[i]),
    {
        let all = ResetSettings::possible_values_typed();
        let mut names: Vec<&'static str> = Vec::new();
        let mut i: usize = 0;
        while i < all.len()
            invariant
                all@ == all_reset_settings(),
                i <= all@.len(),
                names@.len() == i,
                forall|j: int| 0 <= j < i ==> (#[trigger] names@[j])@ == reset_settings_name(all@[j]),
            decreases all@.len() - i,
        {
            names.push(all[i].to_str());
            i = i + 1;
        }
        names
    }
}

/// Reads an on/off switch from how often it was given, how many values it holds and
/// its value: given once with its default value alone it means "on"; left at its
/// default, or given once with an explicit value, its value decides. `None` for any
/// other combination, or a value other than "on" and "off".
pub fn bool_switch(occurrences: u64, values: usize, value: Option<&str>) -> (r: Option<bool>)
    ensures
        r == match value {
            Some(v) => if occurrences == 1 && values == 1 {
                Some(true)
            } else if (occurrences == 0 && values == 1) || (occurrences == 1 && values == 2) {
                if v@ == "on"@ {
                    Some(true)
                } else if v@ == "off"@ {
                    Some(false)
                } else {
                    None
                }
            } else {
                None
            },
            None => None,
        },
{
    match value {
        None => None,
        Some(v) => {
            if occurrences == 1 && values == 1 {
                Some(true)
            } else if (occurrences == 0 && values == 1) || (occurrences == 1 && values == 2) {
                if str_eq(v, "on") {
                    Some(true)
                } else if str_eq(v, "off") {
                    Some(false)
                } else {
                    None
                }
            } else {
                None
            }
        },
    }
}

/// How the device answered one reset.
#[derive(Clone, Copy, Debug, PartialEq, Eq, Structural)]
pub enum ResetResult {
    Done,
    /// The device does not support this setting.
    Unsupported,
    Failed,
}

/// Whether a reset answer fails the command: a failure always does; an unsupported
/// setting does only when it was asked for by name.
pub fn reset_fails(r: ResetResult, explicit: bool) -> (fails: bool)
    ensures
        fails == (r == ResetResult::Failed || (r == ResetResult::Unsupported && explicit)),
{
    match r {
        ResetResult::Done => false,
        ResetResult::Unsupported => explicit,
        ResetResult::Failed => true,
    }
}

} // verus!
