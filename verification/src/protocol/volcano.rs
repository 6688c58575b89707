//! Volcano Hybrid: one characteristic per reading and per switch.
use vstd::prelude::*;
use crate::codec::{
    le_u16, raw_to_tenths_u16, raw_to_tenths_u32, spec_raw_to_tenths_u16,
    spec_raw_to_tenths_u32,
};
use crate::device::DeviceState;
use crate::device::volcano_flags::{HEATER_ENABLED, PUMP_ENABLED};
use crate::uuids::{VOLCANO_ACTIVITY, VOLCANO_CURRENT_TEMP, VOLCANO_TARGET_TEMP};

verus! {

/// The state a 16-bit activity word describes: the word itself, the heater
/// bit and the pump bit; everything else as before.
pub open spec fn spec_apply_activity(state: DeviceState, flags: u16) -> DeviceState {
    DeviceState {
        raw_activity: Some(flags as u32),
        heater_on: (flags & HEATER_ENABLED) != 0,
        pump_on: (flags & PUMP_ENABLED) != 0,
        ..state
    }
}

/// What a notification from characteristic `uuid` does to the state, and
/// whether the new state is to be published:
/// - activity: with at least two bytes, the little-endian activity word;
/// - current temperature: a 16-bit reading sets the current temperature;
/// - target temperature: a 32-bit reading sets the target temperature;
/// anything else (too short, or another characteristic) changes nothing.
pub open spec fn spec_volcano_notification(state: DeviceState, uuid: u128, data: Seq<u8>) -> (
    DeviceState,
    bool,
) {
    if uuid == VOLCANO_ACTIVITY {
        if data.len() >= 2 {
            (spec_apply_activity(state, le_u16(data[0], data[1]) as u16), true)
        } else {
            (state, false)
        }
    } else if uuid == VOLCANO_CURRENT_TEMP {
        match spec_raw_to_tenths_u16(data) {
            Some(t) => (DeviceState { current_temp: Some(t as u32), ..state }, true),
            None => (state, false),
        }
    } else if uuid == VOLCANO_TARGET_TEMP {
        match spec_raw_to_tenths_u32(data) {
            Some(t) => (DeviceState { target_temp: Some(t), ..state }, true),
            None => (state, false),
        }
    } else {
        (state, false)
    }
}

/// Update the state from a Volcano notification of characteristic `uuid`;
/// returns whether the state is to be published to subscribers.
pub fn handle_volcano_notification(state: &mut DeviceState, uuid: u128, data: &[u8]) -> (publish:
    bool)
    ensures
        (*final(state), publish) == spec_volcano_notification(*old(state), uuid, data@),
{
    if uuid == VOLCANO_ACTIVITY {
        match raw_to_tenths_u16(data) {
            Ok(flags) => {
                state.raw_activity = Some(flags as u32);
                state.heater_on = (flags & HEATER_ENABLED) != 0;
                state.pump_on = (flags & PUMP_ENABLED) != 0;
                true
            },
            Err(_) => false,
        }
    } else if uuid == VOLCANO_CURRENT_TEMP {
        match raw_to_tenths_u16(data) {
            Ok(t) => {
                state.current_temp = Some(t as u32);
                true
            },
            Err(_) => false,
        }
    } else if uuid == VOLCANO_TARGET_TEMP {
        match raw_to_tenths_u32(data) {
            Ok(t) => {
                state.target_temp = Some(t);
                true
            },
            Err(_) => false,
        }
    } else {
        false
    }
}

/// Handling the same notification twice leaves the state as handling it
/// once does.
pub proof fn lemma_volcano_notification_idempotent(state: DeviceState, uuid: u128, data: Seq<u8>)
    ensures
        spec_volcano_notification(spec_volcano_notification(state, uuid, data).0, uuid, data).0
            == spec_volcano_notification(state, uuid, data).0,
{
}

/// The heater and pump flags that an activity word sets are its bits 5 and 13.
pub proof fn lemma_activity_bits(state: DeviceState, flags: u16)
    ensures
        spec_apply_activity(state, flags).heater_on == ((flags / 32) % 2 == 1),
        spec_apply_activity(state, flags).pump_on == ((flags / 8192) % 2 == 1),
{
    assert((flags & 0x0020u16) != 0 <==> (flags / 32) % 2 == 1) by (bit_vector);
    assert((flags & 0x2000u16) != 0 <==> (flags / 8192) % 2 == 1) by (bit_vector);
}

/// What a Volcano notification does, in terms of its bytes. From the
/// activity characteristic, with at least two bytes, the word
/// w = byte 0 + 256 · byte 1 is kept, the heater is on exactly when bit 5 of w
/// is set and the pump exactly when bit 13 is set. A 16-bit current
/// temperature reading sets the current temperature to byte 0 + 256 · byte 1,
/// a 32-bit target reading sets the target to its four little-endian bytes.
/// Each touches only those fields and is published; anything else (too
/// short, or another characteristic) leaves the state as it was and is not
/// published.
pub proof fn lemma_volcano_notification_fields(state: DeviceState, uuid: u128, data: Seq<u8>)
    ensures
        ({
            let (next, publish) = spec_volcano_notification(state, uuid, data);
            if uuid == VOLCANO_ACTIVITY && data.len() >= 2 {
                let w = data[0] + 256 * data[1];
                &&& publish
                &&& next.raw_activity == Some(w as u32)
                &&& next.heater_on == ((w / 32) % 2 == 1)
                &&& next.pump_on == ((w / 8192) % 2 == 1)
                &&& next.current_temp == state.current_temp
                &&& next.target_temp == state.target_temp
                &&& next.fan_on == state.fan_on
                &&& next.setpoint_reached == state.setpoint_reached
            } else if uuid == VOLCANO_CURRENT_TEMP && data.len() >= 2 {
                &&& publish
                &&& next == DeviceState { current_temp: Some((data[0] + 256 * data[1]) as u32), ..state }
            } else if uuid == VOLCANO_TARGET_TEMP && data.len() >= 4 {
                &&& publish
                &&& next == DeviceState {
                    target_temp: Some(
                        (data[0] + 256 * data[1] + 65536 * data[2] + 16777216 * data[3]) as u32,
                    ),
                    ..state
                }
            } else {
                !publish && next == state
            }
        }),
{
    if uuid == VOLCANO_ACTIVITY && data.len() >= 2 {
        let flags = le_u16(data[0], data[1]) as u16;
        lemma_activity_bits(state, flags);
    }
}

} // verus!
