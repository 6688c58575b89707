use vstd::prelude::*;
use crate::error::StorzError;

pub mod volcano_flags;

verus! {

/// Supported Storz & Bickel device models.
#[derive(Debug, Clone, Copy, PartialEq, Eq, Hash, Structural)]
pub enum DeviceModel {
    VolcanoHybrid,
    Venty,
    Veazy,
    Crafty,
}

impl DeviceModel {
    /// The human-readable name of the model.
    pub open spec fn spec_name(self) -> Seq<char> {
        match self {
            DeviceModel::VolcanoHybrid => "Volcano Hybrid"@,
            DeviceModel::Venty => "Venty"@,
            DeviceModel::Veazy => "Veazy"@,
            DeviceModel::Crafty => "Crafty"@,
        }
    }

    /// The human-readable name of the model, as it is displayed.
    pub fn name(&self) -> (s: &'static str)
        ensures
            s@ == self.spec_name(),
    {
        match self {
            DeviceModel::VolcanoHybrid => "Volcano Hybrid",
            DeviceModel::Venty => "Venty",
            DeviceModel::Veazy => "Veazy",
            DeviceModel::Crafty => "Crafty",
        }
    }

    /// The displayed name as an owned string.
    pub fn to_string(&self) -> (s: String)
        ensures
            s@ == self.spec_name(),
    {
        String::from_str(self.name())
    }
}

/// Current state snapshot of a vaporizer device.
///
/// Temperatures are held in tenths of a degree Celsius, the unit in which the
/// devices report and accept them (`1855` is 185.5 °C).
#[derive(Debug, Clone, Copy, PartialEq, Eq)]
pub struct DeviceState {
    pub current_temp: Option<u32>,
    pub target_temp: Option<u32>,
    pub heater_on: bool,
    pub pump_on: bool,
    pub fan_on: bool,
    pub setpoint_reached: bool,
    pub raw_activity: Option<u32>,
}

/// The state before any notification has arrived: nothing known, all off.
pub open spec fn initial_state() -> DeviceState {
    DeviceState {
        current_temp: None,
        target_temp: None,
        heater_on: false,
        pump_on: false,
        fan_on: false,
        setpoint_reached: false,
        raw_activity: None,
    }
}

impl Default for DeviceState {
    fn default() -> (s: Self)
        ensures
            s == initial_state(),
    {
        DeviceState {
            current_temp: None,
            target_temp: None,
            heater_on: false,
            pump_on: false,
            fan_on: false,
            setpoint_reached: false,
            raw_activity: None,
        }
    }
}

/// Message of the error for a current temperature not yet reported.
pub open spec fn current_unavailable_message() -> Seq<char> {
    "Current temperature not yet available from device notifications"@
}

/// Message of the error for a target temperature not yet reported.
pub open spec fn target_unavailable_message() -> Seq<char> {
    "Target temperature not yet available from device notifications"@
}

impl DeviceState {
    /// The last current temperature that notifications reported, for devices
    /// that only report it that way; an error while none has arrived.
    pub fn cached_current_temperature(&self) -> (res: Result<u32, StorzError>)
        ensures
            match self.current_temp {
                Some(t) => res == Ok::<u32, StorzError>(t),
                None => res matches Err(e) && e.is_parse_error_with(current_unavailable_message()),
            },
    {
        match self.current_temp {
            Some(t) => Ok(t),
            None => Err(
                StorzError::ParseError(
                    String::from_str(
                        "Current temperature not yet available from device notifications",
                    ),
                ),
            ),
        }
    }

    /// The last target temperature that notifications reported; an error
    /// while none has arrived.
    pub fn cached_target_temperature(&self) -> (res: Result<u32, StorzError>)
        ensures
            match self.target_temp {
                Some(t) => res == Ok::<u32, StorzError>(t),
                None => res matches Err(e) && e.is_parse_error_with(target_unavailable_message()),
            },
    {
        match self.target_temp {
            Some(t) => Ok(t),
            None => Err(
                StorzError::ParseError(
                    String::from_str(
                        "Target temperature not yet available from device notifications",
                    ),
                ),
            ),
        }
    }
}

/// Heater mode of the Venty and Veazy, as carried in their status byte.
#[derive(Debug, Clone, Copy, PartialEq, Eq, Hash, Structural)]
pub enum HeaterMode {
    Off,
    Normal,
    Boost,
    SuperBoost,
}

impl HeaterMode {
    /// The byte that stands for the mode on the wire.
    pub open spec fn spec_raw(self) -> u8 {
        match self {
            HeaterMode::Off => 0,
            HeaterMode::Normal => 1,
            HeaterMode::Boost => 2,
            HeaterMode::SuperBoost => 3,
        }
    }

    /// The mode a wire byte stands for, if any.
    pub open spec fn spec_from_raw(b: u8) -> Option<HeaterMode> {
        if b == 0 {
            Some(HeaterMode::Off)
        } else if b == 1 {
            Some(HeaterMode::Normal)
        } else if b == 2 {
            Some(HeaterMode::Boost)
        } else if b == 3 {
            Some(HeaterMode::SuperBoost)
        } else {
            None
        }
    }

    /// The lower-case name of the mode.
    pub open spec fn spec_name(self) -> Seq<char> {
        match self {
            HeaterMode::Off => "off"@,
            HeaterMode::Normal => "normal"@,
            HeaterMode::Boost => "boost"@,
            HeaterMode::SuperBoost => "superboost"@,
        }
    }

    /// The byte that stands for the mode on the wire
    /// (0 = off, 1 = normal, 2 = boost, 3 = superboost).
    pub fn raw(&self) -> (b: u8)
        ensures
            b == self.spec_raw(),
    {
        match self {
            HeaterMode::Off => 0,
            HeaterMode::Normal => 1,
            HeaterMode::Boost => 2,
            HeaterMode::SuperBoost => 3,
        }
    }

    /// The mode a wire byte stands for; `None` for bytes above 3.
    pub fn from_raw(b: u8) -> (m: Option<HeaterMode>)
        ensures
            m == Self::spec_from_raw(b),
    {
        if b == 0 {
            Some(HeaterMode::Off)
        } else if b == 1 {
            Some(HeaterMode::Normal)
        } else if b == 2 {
            Some(HeaterMode::Boost)
        } else if b == 3 {
            Some(HeaterMode::SuperBoost)
        } else {
            None
        }
    }

    /// The lower-case name of the mode.
    pub fn name(&self) -> (s: &'static str)
        ensures
            s@ == self.spec_name(),
    {
        match self {
            HeaterMode::Off => "off",
            HeaterMode::Normal => "normal",
            HeaterMode::Boost => "boost",
            HeaterMode::SuperBoost => "superboost",
        }
    }
}

/// The wire bytes of the heater modes: 0 off, 1 normal, 2 boost,
/// 3 superboost; only off has byte 0.
pub proof fn lemma_heater_mode_bytes(m: HeaterMode)
    ensures
        HeaterMode::Off.spec_raw() == 0,
        HeaterMode::Normal.spec_raw() == 1,
        HeaterMode::Boost.spec_raw() == 2,
        HeaterMode::SuperBoost.spec_raw() == 3,
        m.spec_raw() == 0 <==> m == HeaterMode::Off,
{
}

/// Different models have different names.
pub proof fn lemma_model_names_distinct(a: DeviceModel, b: DeviceModel)
    ensures
        a != b ==> a.spec_name() != b.spec_name(),
{
    reveal_strlit("Volcano Hybrid");
    reveal_strlit("Venty");
    reveal_strlit("Veazy");
    reveal_strlit("Crafty");
    if a != b {
        assert(a.spec_name().len() != b.spec_name().len() || a.spec_name()[1] != b.spec_name()[1]
            || a.spec_name()[2] != b.spec_name()[2]);
    }
}

/// Reading a mode back from its wire byte gives the mode.
pub proof fn lemma_heater_mode_raw_roundtrip(m: HeaterMode)
    ensures
        HeaterMode::spec_from_raw(m.spec_raw()) == Some(m),
{
}

/// A wire byte that stands for a mode is that mode's byte, and exactly the
/// bytes 0 to 3 stand for a mode.
pub proof fn lemma_heater_mode_from_raw_roundtrip(b: u8)
    ensures
        HeaterMode::spec_from_raw(b) is Some <==> b <= 3,
        HeaterMode::spec_from_raw(b) matches Some(m) ==> m.spec_raw() == b,
{
}

} // verus!
