//! What each device model does with a control request: which characteristic
//! is written with which bytes, or why the request is refused; where each
//! reading comes from; and which characteristics are subscribed to.
use vstd::prelude::*;
use crate::codec::{
    le_bytes_u16, le_bytes_u32, out_of_range_message, raw_to_tenths_u16, raw_to_tenths_u32,
    short_reading_message, spec_raw_to_tenths_u16, spec_raw_to_tenths_u32, tenths_to_raw_u16,
    tenths_to_raw_u32,
};
use crate::device::{DeviceModel, DeviceState, HeaterMode};
use crate::error::StorzError;
use crate::protocol::crafty::{handle_crafty_notification, spec_crafty_notification};
use crate::protocol::venty::{
    handle_venty_notification, spec_venty_command, spec_venty_notification,
    venty_heater_command, venty_heater_mode_command, venty_set_target_command, VENTY_CMD_WRITE, VENTY_MASK_HEATER,
    VENTY_MASK_SET_TEMPERATURE,
};
use crate::protocol::volcano::{handle_volcano_notification, spec_volcano_notification};
use crate::uuids::{
    CRAFTY_CURRENT_TEMP_CHANGED, CRAFTY_HEATER_OFF, CRAFTY_HEATER_ON, CRAFTY_WRITE_TEMP,
    VENTY_CONTROL, VOLCANO_ACTIVITY, VOLCANO_CURRENT_TEMP, VOLCANO_HEATER_OFF,
    VOLCANO_HEATER_ON, VOLCANO_PUMP_OFF, VOLCANO_PUMP_ON, VOLCANO_TARGET_TEMP,
};

verus! {

/// A request that every model receives.
#[derive(Debug, Clone, Copy, PartialEq, Eq, Structural)]
pub enum Request {
    /// Set the target temperature, in tenths of a degree Celsius (rounded
    /// from the requested degrees).
    SetTargetTemperature(i64),
    HeaterOn,
    HeaterOff,
    PumpOn,
    PumpOff,
    /// Set the heater mode (Venty and Veazy only).
    SetHeaterMode(HeaterMode),
}

/// One write to a characteristic.
#[derive(Debug, Clone, PartialEq, Eq)]
pub struct CharacteristicWrite {
    pub characteristic: u128,
    pub data: Vec<u8>,
}

/// The temperature a Venty/Veazy is sent for a request in tenths: the value
/// saturated into the 16-bit range.
pub open spec fn venty_saturated(tenths: i64) -> u16 {
    if tenths < 0 {
        0
    } else if tenths > u16::MAX {
        u16::MAX
    } else {
        tenths as u16
    }
}

/// The model has a pump.
pub open spec fn has_pump(model: DeviceModel) -> bool {
    model == DeviceModel::VolcanoHybrid
}

/// The single zero byte written to a switch characteristic.
pub open spec fn switch_payload() -> Seq<u8> {
    seq![0u8]
}

/// The characteristic and bytes written for a request, or `None` when the
/// request is refused: the pump on models without one, and a target
/// temperature outside the characteristic's range on the Volcano (32-bit)
/// and the Crafty (16-bit). The Venty and Veazy saturate the temperature
/// into 16 bits instead of refusing it.
pub open spec fn spec_request_write(model: DeviceModel, req: Request) -> Option<(u128, Seq<u8>)> {
    match model {
        DeviceModel::VolcanoHybrid => match req {
            Request::SetTargetTemperature(t) => if 0 <= t <= u32::MAX {
                Some((VOLCANO_TARGET_TEMP, le_bytes_u32(t as u32)))
            } else {
                None
            },
            Request::HeaterOn => Some((VOLCANO_HEATER_ON, switch_payload())),
            Request::HeaterOff => Some((VOLCANO_HEATER_OFF, switch_payload())),
            Request::PumpOn => Some((VOLCANO_PUMP_ON, switch_payload())),
            Request::PumpOff => Some((VOLCANO_PUMP_OFF, switch_payload())),
            Request::SetHeaterMode(_) => None,
        },
        DeviceModel::Crafty => match req {
            Request::SetTargetTemperature(t) => if 0 <= t <= u16::MAX {
                Some((CRAFTY_WRITE_TEMP, le_bytes_u16(t as u16)))
            } else {
                None
            },
            Request::HeaterOn => Some((CRAFTY_HEATER_ON, switch_payload())),
            Request::HeaterOff => Some((CRAFTY_HEATER_OFF, switch_payload())),
            Request::PumpOn => None,
            Request::PumpOff => None,
            Request::SetHeaterMode(_) => None,
        },
        DeviceModel::Venty | DeviceModel::Veazy => match req {
            Request::SetTargetTemperature(t) => {
                let raw = venty_saturated(t);
                Some(
                    (
                        VENTY_CONTROL,
                        spec_venty_command(
                            VENTY_CMD_WRITE,
                            VENTY_MASK_SET_TEMPERATURE,
                            seq![(4usize, (raw % 256) as u8), (5usize, (raw / 256) as u8)],
                        ),
                    ),
                )
            },
            Request::HeaterOn => Some(
                (VENTY_CONTROL, spec_venty_command(VENTY_CMD_WRITE, VENTY_MASK_HEATER, seq![(11usize, 1u8)])),
            ),
            Request::HeaterOff => Some(
                (VENTY_CONTROL, spec_venty_command(VENTY_CMD_WRITE, VENTY_MASK_HEATER, seq![(11usize, 0u8)])),
            ),
            Request::PumpOn => None,
            Request::PumpOff => None,
            Request::SetHeaterMode(mode) => Some(
                (VENTY_CONTROL, spec_venty_command(VENTY_CMD_WRITE, VENTY_MASK_HEATER, seq![(11usize, mode.spec_raw())])),
            ),
        },
    }
}

/// The error that refuses a request: an unsupported operation naming the
/// model for the pump, an unsupported operation of an "unknown" device for
/// the heater mode (no model but the Venty and Veazy declares it), a parse
/// error for an out-of-range temperature.
pub open spec fn is_refusal(model: DeviceModel, req: Request, e: StorzError) -> bool {
    match req {
        Request::PumpOn => e.is_unsupported(model.spec_name(), "pump_on"@),
        Request::PumpOff => e.is_unsupported(model.spec_name(), "pump_off"@),
        Request::SetTargetTemperature(_) => e.is_parse_error_with(out_of_range_message()),
        Request::SetHeaterMode(_) => e.is_unsupported("unknown"@, "set_heater_mode"@),
        _ => false,
    }
}

/// Operations of the control interface that a model may not offer.
#[derive(Debug, Clone, Copy, PartialEq, Eq, Structural)]
pub enum Operation {
    PumpOn,
    PumpOff,
    GetSettings,
    SetTemperatureUnit,
    SetBoostTemperature,
    SetSuperBoostTemperature,
    SetAutoShutdownTimer,
    SetBrightness,
    SetVibration,
    FactoryReset,
    SetBoostVisualization,
    SetChargeCurrentOptimization,
    SetChargeVoltageLimit,
    SetPermanentBluetooth,
    SetHeaterMode,
    GetDeviceInfo,
    SetShutoffTime,
    FindMyDevice,
}

impl Operation {
    /// The operation's method name.
    pub open spec fn spec_name(self) -> Seq<char> {
        match self {
            Operation::PumpOn => "pump_on"@,
            Operation::PumpOff => "pump_off"@,
            Operation::GetSettings => "get_settings"@,
            Operation::SetTemperatureUnit => "set_temperature_unit"@,
            Operation::SetBoostTemperature => "set_boost_temperature"@,
            Operation::SetSuperBoostTemperature => "set_super_boost_temperature"@,
            Operation::SetAutoShutdownTimer => "set_auto_shutdown_timer"@,
            Operation::SetBrightness => "set_brightness"@,
            Operation::SetVibration => "set_vibration"@,
            Operation::FactoryReset => "factory_reset"@,
            Operation::SetBoostVisualization => "set_boost_visualization"@,
            Operation::SetChargeCurrentOptimization => "set_charge_current_optimization"@,
            Operation::SetChargeVoltageLimit => "set_charge_voltage_limit"@,
            Operation::SetPermanentBluetooth => "set_permanent_bluetooth"@,
            Operation::SetHeaterMode => "set_heater_mode"@,
            Operation::GetDeviceInfo => "get_device_info"@,
            Operation::SetShutoffTime => "set_shutoff_time"@,
            Operation::FindMyDevice => "find_my_device"@,
        }
    }

    /// The operation's method name.
    pub fn name(&self) -> (s: &'static str)
        ensures
            s@ == self.spec_name(),
    {
        match self {
            Operation::PumpOn => "pump_on",
            Operation::PumpOff => "pump_off",
            Operation::GetSettings => "get_settings",
            Operation::SetTemperatureUnit => "set_temperature_unit",
            Operation::SetBoostTemperature => "set_boost_temperature",
            Operation::SetSuperBoostTemperature => "set_super_boost_temperature",
            Operation::SetAutoShutdownTimer => "set_auto_shutdown_timer",
            Operation::SetBrightness => "set_brightness",
            Operation::SetVibration => "set_vibration",
            Operation::FactoryReset => "factory_reset",
            Operation::SetBoostVisualization => "set_boost_visualization",
            Operation::SetChargeCurrentOptimization => "set_charge_current_optimization",
            Operation::SetChargeVoltageLimit => "set_charge_voltage_limit",
            Operation::SetPermanentBluetooth => "set_permanent_bluetooth",
            Operation::SetHeaterMode => "set_heater_mode",
            Operation::GetDeviceInfo => "get_device_info",
            Operation::SetShutoffTime => "set_shutoff_time",
            Operation::FindMyDevice => "find_my_device",
        }
    }
}

/// The refusal of `operation` by `device`.
pub fn unsupported(device: &str, operation: Operation) -> (e: StorzError)
    ensures
        e.is_unsupported(device@, operation.spec_name()),
{
    StorzError::UnsupportedOperation {
        device: String::from_str(device),
        operation: String::from_str(operation.name()),
    }
}

/// The refusal of an operation that no model has declared support for; the
/// device is named "unknown".
pub fn unsupported_by_default(operation: Operation) -> (e: StorzError)
    ensures
        e.is_unsupported("unknown"@, operation.spec_name()),
{
    unsupported("unknown", operation)
}

fn switch_write(characteristic: u128) -> (w: CharacteristicWrite)
    ensures
        w.characteristic == characteristic,
        w.data@ == switch_payload(),
{
    let data: Vec<u8> = vec![0x00];
    CharacteristicWrite { characteristic, data }
}

fn saturate_u16(tenths: i64) -> (raw: u16)
    ensures
        raw == venty_saturated(tenths),
{
    if tenths < 0 {
        0
    } else if tenths > 65535 {
        65535
    } else {
        tenths as u16
    }
}

/// Decide what to write for a request to a device of the given model, or
/// refuse it (see `spec_request_write` and `is_refusal`).
pub fn plan_request(model: DeviceModel, req: Request) -> (res: Result<CharacteristicWrite, StorzError>)
    ensures
        res is Ok <==> spec_request_write(model, req) is Some,
        res matches Ok(w) ==> spec_request_write(model, req) == Some((w.characteristic, w.data@)),
        res matches Err(e) ==> is_refusal(model, req, e),
{
    match model {
        DeviceModel::VolcanoHybrid => match req {
            Request::SetTargetTemperature(t) => {
                let data = tenths_to_raw_u32(t)?;
                Ok(CharacteristicWrite { characteristic: VOLCANO_TARGET_TEMP, data })
            },
            Request::HeaterOn => Ok(switch_write(VOLCANO_HEATER_ON)),
            Request::HeaterOff => Ok(switch_write(VOLCANO_HEATER_OFF)),
            Request::PumpOn => Ok(switch_write(VOLCANO_PUMP_ON)),
            Request::PumpOff => Ok(switch_write(VOLCANO_PUMP_OFF)),
            Request::SetHeaterMode(_) => Err(unsupported_by_default(Operation::SetHeaterMode)),
        },
        DeviceModel::Crafty => match req {
            Request::SetTargetTemperature(t) => {
                let data = tenths_to_raw_u16(t)?;
                Ok(CharacteristicWrite { characteristic: CRAFTY_WRITE_TEMP, data })
            },
            Request::HeaterOn => Ok(switch_write(CRAFTY_HEATER_ON)),
            Request::HeaterOff => Ok(switch_write(CRAFTY_HEATER_OFF)),
            Request::PumpOn => Err(unsupported(model.name(), Operation::PumpOn)),
            Request::PumpOff => Err(unsupported(model.name(), Operation::PumpOff)),
            Request::SetHeaterMode(_) => Err(unsupported_by_default(Operation::SetHeaterMode)),
        },
        DeviceModel::Venty | DeviceModel::Veazy => match req {
            Request::SetTargetTemperature(t) => {
                let data = venty_set_target_command(saturate_u16(t));
                Ok(CharacteristicWrite { characteristic: VENTY_CONTROL, data })
            },
            Request::HeaterOn => Ok(
                CharacteristicWrite { characteristic: VENTY_CONTROL, data: venty_heater_command(true) },
            ),
            Request::HeaterOff => Ok(
                CharacteristicWrite { characteristic: VENTY_CONTROL, data: venty_heater_command(false) },
            ),
            Request::PumpOn => Err(unsupported(model.name(), Operation::PumpOn)),
            Request::PumpOff => Err(unsupported(model.name(), Operation::PumpOff)),
            Request::SetHeaterMode(mode) => Ok(
                CharacteristicWrite { characteristic: VENTY_CONTROL, data: venty_heater_mode_command(mode) },
            ),
        },
    }
}

/// A temperature a client can ask for.
#[derive(Debug, Clone, Copy, PartialEq, Eq, Structural)]
pub enum Reading {
    Current,
    Target,
}

/// Where a reading comes from.
#[derive(Debug, Clone, Copy, PartialEq, Eq, Structural)]
pub enum ReadingSource {
    /// Read the characteristic; its value is `wide` (32-bit) or 16-bit,
    /// little-endian, in tenths of a degree.
    Characteristic { uuid: u128, wide: bool },
    /// The device only reports it in notifications: use the last state.
    Notifications,
}

/// Where each model's readings come from.
pub open spec fn spec_reading_source(model: DeviceModel, reading: Reading) -> ReadingSource {
    match (model, reading) {
        (DeviceModel::VolcanoHybrid, Reading::Current) => ReadingSource::Characteristic {
            uuid: VOLCANO_CURRENT_TEMP,
            wide: false,
        },
        (DeviceModel::VolcanoHybrid, Reading::Target) => ReadingSource::Characteristic {
            uuid: VOLCANO_TARGET_TEMP,
            wide: true,
        },
        (DeviceModel::Crafty, Reading::Current) => ReadingSource::Characteristic {
            uuid: CRAFTY_CURRENT_TEMP_CHANGED,
            wide: false,
        },
        (DeviceModel::Crafty, Reading::Target) => ReadingSource::Characteristic {
            uuid: CRAFTY_WRITE_TEMP,
            wide: false,
        },
        _ => ReadingSource::Notifications,
    }
}

/// Where a reading comes from on a device of the given model.
pub fn reading_source(model: DeviceModel, reading: Reading) -> (src: ReadingSource)
    ensures
        src == spec_reading_source(model, reading),
{
    match model {
        DeviceModel::VolcanoHybrid => match reading {
            Reading::Current => ReadingSource::Characteristic {
                uuid: VOLCANO_CURRENT_TEMP,
                wide: false,
            },
            Reading::Target => ReadingSource::Characteristic {
                uuid: VOLCANO_TARGET_TEMP,
                wide: true,
            },
        },
        DeviceModel::Crafty => match reading {
            Reading::Current => ReadingSource::Characteristic {
                uuid: CRAFTY_CURRENT_TEMP_CHANGED,
                wide: false,
            },
            Reading::Target => ReadingSource::Characteristic { uuid: CRAFTY_WRITE_TEMP, wide: false },
        },
        DeviceModel::Venty | DeviceModel::Veazy => ReadingSource::Notifications,
    }
}

/// Decode the bytes read from a temperature characteristic: 32-bit when
/// `wide`, else 16-bit, little-endian tenths of a degree.
pub fn decode_reading(wide: bool, data: &[u8]) -> (res: Result<u32, StorzError>)
    ensures
        wide ==> (res is Ok <==> data@.len() >= 4),
        !wide ==> (res is Ok <==> data@.len() >= 2),
        res matches Ok(t) ==> (if wide {
            spec_raw_to_tenths_u32(data@) == Some(t)
        } else {
            spec_raw_to_tenths_u16(data@) matches Some(v) && v as u32 == t
        }),
        res matches Err(e) ==> e.is_parse_error_with(short_reading_message()),
{
    if wide {
        raw_to_tenths_u32(data)
    } else {
        match raw_to_tenths_u16(data) {
            Ok(v) => Ok(v as u32),
            Err(e) => Err(e),
        }
    }
}

/// The characteristics whose notifications each model is subscribed to.
pub open spec fn spec_subscriptions(model: DeviceModel) -> Seq<u128> {
    match model {
        DeviceModel::VolcanoHybrid => seq![VOLCANO_ACTIVITY, VOLCANO_CURRENT_TEMP, VOLCANO_TARGET_TEMP],
        DeviceModel::Crafty => seq![CRAFTY_CURRENT_TEMP_CHANGED],
        DeviceModel::Venty | DeviceModel::Veazy => seq![VENTY_CONTROL],
    }
}

/// The characteristics to subscribe to when connecting, in order.
pub fn subscriptions(model: DeviceModel) -> (uuids: Vec<u128>)
    ensures
        uuids@ == spec_subscriptions(model),
{
    let uuids: Vec<u128> = match model {
        DeviceModel::VolcanoHybrid => vec![VOLCANO_ACTIVITY, VOLCANO_CURRENT_TEMP, VOLCANO_TARGET_TEMP],
        DeviceModel::Crafty => vec![CRAFTY_CURRENT_TEMP_CHANGED],
        DeviceModel::Venty | DeviceModel::Veazy => vec![VENTY_CONTROL],
    };
    assert(uuids@ =~= spec_subscriptions(model));
    uuids
}

/// What a notification does on a device of the given model (the Venty and
/// Veazy do not look at which characteristic it came from).
pub open spec fn spec_notification(model: DeviceModel, state: DeviceState, uuid: u128, data: Seq<
    u8,
>) -> (DeviceState, bool) {
    match model {
        DeviceModel::VolcanoHybrid => spec_volcano_notification(state, uuid, data),
        DeviceModel::Crafty => spec_crafty_notification(state, uuid, data),
        DeviceModel::Venty | DeviceModel::Veazy => spec_venty_notification(state, data),
    }
}

/// Update the state from a notification of characteristic `uuid` on a
/// device of the given model; returns whether the state is to be published.
pub fn handle_notification(model: DeviceModel, state: &mut DeviceState, uuid: u128, data: &[u8]) -> (publish: bool)
    ensures
        (*final(state), publish) == spec_notification(model, *old(state), uuid, data@),
{
    match model {
        DeviceModel::VolcanoHybrid => handle_volcano_notification(state, uuid, data),
        DeviceModel::Crafty => handle_crafty_notification(state, uuid, data),
        DeviceModel::Venty | DeviceModel::Veazy => handle_venty_notification(state, data),
    }
}

/// Position of the first characteristic in `available` with the wanted UUID.
pub fn find_characteristic(available: &[u128], wanted: u128) -> (pos: Option<usize>)
    ensures
        match pos {
            Some(i) => i < available@.len() && available@[i as int] == wanted && forall|j: int|
                0 <= j < i ==> available@[j] != wanted,
            None => forall|j: int| 0 <= j < available@.len() ==> available@[j] != wanted,
        },
{
    let mut i: usize = 0;
    while i < available.len()
        invariant
            i <= available@.len(),
            forall|j: int| 0 <= j < i ==> available@[j] != wanted,
        decreases available@.len() - i,
    {
        if available[i] == wanted {
            return Some(i);
        }
        i = i + 1;
    }
    None
}

/// Only the Volcano Hybrid has a pump: switching the pump is refused, with an
/// unsupported-operation error naming the model, on every other model.
pub proof fn lemma_pump_only_on_volcano(model: DeviceModel)
    ensures
        spec_request_write(model, Request::PumpOn) is Some <==> has_pump(model),
        spec_request_write(model, Request::PumpOff) is Some <==> has_pump(model),
{
}

/// The heater mode can be set exactly on the Venty and Veazy; there,
/// switching the heater on or off writes the same buffer as setting the
/// mode to normal or off.
pub proof fn lemma_heater_mode_on_venty_only(model: DeviceModel, mode: HeaterMode)
    ensures
        spec_request_write(model, Request::SetHeaterMode(mode)) is Some <==> (model
            == DeviceModel::Venty || model == DeviceModel::Veazy),
        (model == DeviceModel::Venty || model == DeviceModel::Veazy) ==> {
            &&& spec_request_write(model, Request::HeaterOn) == spec_request_write(
                model,
                Request::SetHeaterMode(HeaterMode::Normal),
            )
            &&& spec_request_write(model, Request::HeaterOff) == spec_request_write(
                model,
                Request::SetHeaterMode(HeaterMode::Off),
            )
        },
{
}

/// What the Volcano and Crafty write for their switches: a single zero byte,
/// to the characteristic named for the switch; and on every model switching
/// the heater on and switching it off write different things.
pub proof fn lemma_switch_writes(model: DeviceModel)
    ensures
        spec_request_write(DeviceModel::VolcanoHybrid, Request::HeaterOn) == Some(
            (VOLCANO_HEATER_ON, seq![0u8]),
        ),
        spec_request_write(DeviceModel::VolcanoHybrid, Request::HeaterOff) == Some(
            (VOLCANO_HEATER_OFF, seq![0u8]),
        ),
        spec_request_write(DeviceModel::VolcanoHybrid, Request::PumpOn) == Some(
            (VOLCANO_PUMP_ON, seq![0u8]),
        ),
        spec_request_write(DeviceModel::VolcanoHybrid, Request::PumpOff) == Some(
            (VOLCANO_PUMP_OFF, seq![0u8]),
        ),
        spec_request_write(DeviceModel::Crafty, Request::HeaterOn) == Some(
            (CRAFTY_HEATER_ON, seq![0u8]),
        ),
        spec_request_write(DeviceModel::Crafty, Request::HeaterOff) == Some(
            (CRAFTY_HEATER_OFF, seq![0u8]),
        ),
        spec_request_write(model, Request::HeaterOn) != spec_request_write(model, Request::HeaterOff),
{
    if model == DeviceModel::Venty || model == DeviceModel::Veazy {
        let on = spec_request_write(model, Request::HeaterOn).unwrap().1;
        let off = spec_request_write(model, Request::HeaterOff).unwrap().1;
        let base = seq![VENTY_CMD_WRITE, VENTY_MASK_HEATER] + Seq::new(18, |i: int| 0u8);
        crate::protocol::venty::lemma_heater_writes(base, 1u8);
        crate::protocol::venty::lemma_heater_writes(base, 0u8);
        assert(on[11] != off[11]);
    }
}

/// The Venty and Veazy write a target temperature as a command buffer of
/// command 0x01 and mask 0x02 whose bytes 4 and 5 hold, little-endian, the
/// requested tenths clamped to 0..=65535; the Crafty writes exactly the two
/// little-endian bytes of the value.
pub proof fn lemma_target_writes(model: DeviceModel, tenths: i64)
    ensures
        (model == DeviceModel::Venty || model == DeviceModel::Veazy) ==> ({
            let (uuid, buf) = spec_request_write(model, Request::SetTargetTemperature(tenths)).unwrap();
            let clamped: int = if tenths < 0 {
                0
            } else if tenths > 65535 {
                65535
            } else {
                tenths as int
            };
            &&& uuid == VENTY_CONTROL
            &&& buf.len() == 20
            &&& buf[0] == 0x01
            &&& buf[1] == 0x02
            &&& buf[4] + 256 * buf[5] == clamped
        }),
        (model == DeviceModel::Crafty && 0 <= tenths <= 65535) ==> ({
            let (uuid, buf) = spec_request_write(model, Request::SetTargetTemperature(tenths)).unwrap();
            &&& uuid == CRAFTY_WRITE_TEMP
            &&& buf.len() == 2
            &&& buf[0] + 256 * buf[1] == tenths
        }),
{
    if model == DeviceModel::Venty || model == DeviceModel::Veazy {
        let raw = venty_saturated(tenths);
        let low = (raw % 256) as u8;
        let high = (raw / 256) as u8;
        let base = seq![VENTY_CMD_WRITE, VENTY_MASK_SET_TEMPERATURE] + Seq::new(18, |i: int| 0u8);
        crate::protocol::venty::lemma_target_writes_bytes(base, low, high);
    }
}

/// Every characteristic whose notification changes a Volcano's or a
/// Crafty's state is one that connecting subscribes to.
pub proof fn lemma_subscriptions_cover_notifications(model: DeviceModel, state: DeviceState, uuid: u128, data: Seq<u8>)
    requires
        model == DeviceModel::VolcanoHybrid || model == DeviceModel::Crafty,
        spec_notification(model, state, uuid, data).1,
    ensures
        spec_subscriptions(model).contains(uuid),
{
    if model == DeviceModel::VolcanoHybrid {
        if uuid == VOLCANO_ACTIVITY {
            assert(spec_subscriptions(model)[0] == uuid);
        } else if uuid == VOLCANO_CURRENT_TEMP {
            assert(spec_subscriptions(model)[1] == uuid);
        } else {
            assert(spec_subscriptions(model)[2] == uuid);
        }
    } else {
        assert(spec_subscriptions(model)[0] == uuid);
    }
}

/// Every model accepts switching the heater on and off.
pub proof fn lemma_heater_always_supported(model: DeviceModel)
    ensures
        spec_request_write(model, Request::HeaterOn) is Some,
        spec_request_write(model, Request::HeaterOff) is Some,
{
}

/// Every model accepts a target temperature that fits in 16 bits of tenths
/// of a degree (up to 6553.5 °C).
pub proof fn lemma_target_in_range_supported(model: DeviceModel, tenths: i64)
    requires
        0 <= tenths <= u16::MAX,
    ensures
        spec_request_write(model, Request::SetTargetTemperature(tenths)) is Some,
{
}

/// Writing a target temperature to the Volcano or the Crafty and reading that
/// characteristic back decodes to the temperature that was written.
pub proof fn lemma_target_write_read_back(model: DeviceModel, tenths: i64)
    requires
        model == DeviceModel::VolcanoHybrid || model == DeviceModel::Crafty,
        spec_request_write(model, Request::SetTargetTemperature(tenths)) is Some,
    ensures
        ({
            let (uuid, bytes) = spec_request_write(
                model,
                Request::SetTargetTemperature(tenths),
            ).unwrap();
            &&& spec_reading_source(model, Reading::Target) matches ReadingSource::Characteristic {
                uuid: u,
                wide,
            }
            &&& u == uuid
            &&& if wide {
                spec_raw_to_tenths_u32(bytes) == Some(tenths as u32)
            } else {
                spec_raw_to_tenths_u16(bytes) matches Some(v) && v == tenths
            }
        }),
{
    if model == DeviceModel::VolcanoHybrid {
        crate::codec::lemma_u32_encode_decode(tenths as u32);
    } else {
        crate::codec::lemma_u16_encode_decode(tenths as u16);
    }
}

/// The Venty and Veazy offer no temperature characteristic to read: both
/// their readings come from the state their notifications keep. The Volcano
/// and the Crafty read a characteristic for each: the Volcano its current
/// (16-bit) and target (32-bit) temperature characteristics, the Crafty its
/// current-temperature and write-temperature characteristics (both 16-bit).
pub proof fn lemma_reading_sources(model: DeviceModel, reading: Reading)
    ensures
        (model == DeviceModel::Venty || model == DeviceModel::Veazy) ==> spec_reading_source(
            model,
            reading,
        ) == ReadingSource::Notifications,
        model == DeviceModel::VolcanoHybrid ==> spec_reading_source(model, reading) == (
        match reading {
            Reading::Current => ReadingSource::Characteristic {
                uuid: VOLCANO_CURRENT_TEMP,
                wide: false,
            },
            Reading::Target => ReadingSource::Characteristic { uuid: VOLCANO_TARGET_TEMP, wide: true },
        }),
        model == DeviceModel::Crafty ==> spec_reading_source(model, reading) == (match reading {
            Reading::Current => ReadingSource::Characteristic {
                uuid: CRAFTY_CURRENT_TEMP_CHANGED,
                wide: false,
            },
            Reading::Target => ReadingSource::Characteristic { uuid: CRAFTY_WRITE_TEMP, wide: false },
        }),
{
}

/// Handling the same notification twice leaves the state as handling it
/// once does, on every model.
pub proof fn lemma_notification_idempotent(model: DeviceModel, state: DeviceState, uuid: u128, data: Seq<u8>)
    ensures
        spec_notification(model, spec_notification(model, state, uuid, data).0, uuid, data).0
            == spec_notification(model, state, uuid, data).0,
{
}

/// A notification that is not published leaves the state unchanged.
pub proof fn lemma_unpublished_changes_nothing(model: DeviceModel, state: DeviceState, uuid: u128, data: Seq<u8>)
    ensures
        !spec_notification(model, state, uuid, data).1 ==> spec_notification(model, state, uuid, data).0 == state,
{
}

} // verus!
