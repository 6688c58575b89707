//! Bitmask flags from the Volcano activity characteristic.
use vstd::prelude::*;

verus! {

pub const HEATER_ENABLED: u16 = 0x0020;

pub const AUTO_SHUTDOWN: u16 = 0x0200;

pub const PUMP_ENABLED: u16 = 0x2000;

} // verus!
