//! Crafty+: one characteristic per reading and per switch; only the current
//! temperature is notified.
use vstd::prelude::*;
use crate::codec::{raw_to_tenths_u16, spec_raw_to_tenths_u16};
use crate::device::DeviceState;
use crate::uuids::CRAFTY_CURRENT_TEMP_CHANGED;

verus! {

/// What a notification from characteristic `uuid` does to the state, and
/// whether the new state is to be published: a 16-bit reading from the
/// current-temperature characteristic sets the current temperature; anything
/// else changes nothing.
pub open spec fn spec_crafty_notification(state: DeviceState, uuid: u128, data: Seq<u8>) -> (
    DeviceState,
    bool,
) {
    if uuid == CRAFTY_CURRENT_TEMP_CHANGED {
        match spec_raw_to_tenths_u16(data) {
            Some(t) => (DeviceState { current_temp: Some(t as u32), ..state }, true),
            None => (state, false),
        }
    } else {
        (state, false)
    }
}

/// Update the state from a Crafty notification of characteristic `uuid`;
/// returns whether the state is to be published to subscribers.
pub fn handle_crafty_notification(state: &mut DeviceState, uuid: u128, data: &[u8]) -> (publish:
    bool)
    ensures
        (*final(state), publish) == spec_crafty_notification(*old(state), uuid, data@),
{
    if uuid == CRAFTY_CURRENT_TEMP_CHANGED {
        match raw_to_tenths_u16(data) {
            Ok(t) => {
                state.current_temp = Some(t as u32);
                true
            },
            Err(_) => false,
        }
    } else {
        false
    }
}

/// A Crafty notification changes only the current temperature: from the
/// current-temperature characteristic with at least two bytes it becomes
/// byte 0 + 256 · byte 1 (tenths of a degree) and the state is published,
/// every other field left as it was; anything else changes nothing and is
/// not published.
pub proof fn lemma_crafty_notification_fields(state: DeviceState, uuid: u128, data: Seq<u8>)
    ensures
        ({
            let (next, publish) = spec_crafty_notification(state, uuid, data);
            if uuid == CRAFTY_CURRENT_TEMP_CHANGED && data.len() >= 2 {
                &&& publish
                &&& next.current_temp == Some((data[0] + 256 * data[1]) as u32)
                &&& next.target_temp == state.target_temp
                &&& next.heater_on == state.heater_on
                &&& next.pump_on == state.pump_on
                &&& next.fan_on == state.fan_on
                &&& next.setpoint_reached == state.setpoint_reached
                &&& next.raw_activity == state.raw_activity
            } else {
                !publish && next == state
            }
        }),
{
}

} // verus!
