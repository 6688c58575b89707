use vstd::prelude::*;

verus! {

// Characteristic and service identifiers are held as the 128-bit value of the
// UUID (its bytes read in big-endian order), which is how they are compared.

// -- Volcano Hybrid Services ------------------------------------------------
pub const VOLCANO_SERVICE_STATE: u128 = 0x10100000_5354_4f52_5a26_4249434b454c;
pub const VOLCANO_SERVICE_CONTROL: u128 = 0x10110000_5354_4f52_5a26_4249434b454c;

// -- Volcano Hybrid Characteristics -----------------------------------------
pub const VOLCANO_CURRENT_TEMP: u128 = 0x10110001_5354_4f52_5a26_4249434b454c;
pub const VOLCANO_TARGET_TEMP: u128 = 0x10110003_5354_4f52_5a26_4249434b454c;
pub const VOLCANO_HEATER_ON: u128 = 0x1011000f_5354_4f52_5a26_4249434b454c;
pub const VOLCANO_HEATER_OFF: u128 = 0x10110010_5354_4f52_5a26_4249434b454c;
pub const VOLCANO_PUMP_ON: u128 = 0x10110013_5354_4f52_5a26_4249434b454c;
pub const VOLCANO_PUMP_OFF: u128 = 0x10110014_5354_4f52_5a26_4249434b454c;
pub const VOLCANO_ACTIVITY: u128 = 0x1010000c_5354_4f52_5a26_4249434b454c;
pub const VOLCANO_SHUTOFF_TIME: u128 = 0x1011000d_5354_4f52_5a26_4249434b454c;
pub const VOLCANO_BRIGHTNESS: u128 = 0x10110005_5354_4f52_5a26_4249434b454c;
pub const VOLCANO_VIBRATION: u128 = 0x1010000e_5354_4f52_5a26_4249434b454c;
pub const VOLCANO_SERIAL_NUMBER: u128 = 0x10100008_5354_4f52_5a26_4249434b454c;
pub const VOLCANO_FIRMWARE_VERSION: u128 = 0x10100003_5354_4f52_5a26_4249434b454c;
pub const VOLCANO_FIRMWARE_BLE_VERSION: u128 = 0x10100004_5354_4f52_5a26_4249434b454c;
pub const VOLCANO_HOURS_OF_HEATING: u128 = 0x10110015_5354_4f52_5a26_4249434b454c;
pub const VOLCANO_MINUTES_OF_HEATING: u128 = 0x10110016_5354_4f52_5a26_4249434b454c;

// -- Venty / Veazy Services -------------------------------------------------
pub const VENTY_SERVICE_PRIMARY: u128 = 0x00000000_5354_4f52_5a26_4249434b454c;

// -- Venty / Veazy Characteristics ------------------------------------------
pub const VENTY_CONTROL: u128 = 0x00000001_5354_4f52_5a26_4249434b454c;

// -- Crafty+ Services ------------------------------------------------------
pub const CRAFTY_SERVICE_1: u128 = 0x00000001_4c45_4b43_4942_265a524f5453;
pub const CRAFTY_SERVICE_2: u128 = 0x00000002_4c45_4b43_4942_265a524f5453;
pub const CRAFTY_SERVICE_3: u128 = 0x00000003_4c45_4b43_4942_265a524f5453;

// -- Crafty+ Characteristics -----------------------------------------------
pub const CRAFTY_WRITE_TEMP: u128 = 0x00000021_4c45_4b43_4942_265a524f5453;
pub const CRAFTY_CURRENT_TEMP_CHANGED: u128 = 0x00000011_4c45_4b43_4942_265a524f5453;
pub const CRAFTY_WRITE_BOOST_TEMP: u128 = 0x00000031_4c45_4b43_4942_265a524f5453;
pub const CRAFTY_HEATER_ON: u128 = 0x00000081_4c45_4b43_4942_265a524f5453;
pub const CRAFTY_HEATER_OFF: u128 = 0x00000091_4c45_4b43_4942_265a524f5453;
pub const CRAFTY_FIRMWARE_VERSION: u128 = 0x00000032_4c45_4b43_4942_265a524f5453;
pub const CRAFTY_FIRMWARE_BLE_VERSION: u128 = 0x00000072_4c45_4b43_4942_265a524f5453;
pub const CRAFTY_SYSTEM_STATUS: u128 = 0x00000083_4c45_4b43_4942_265a524f5453;
pub const CRAFTY_AKKU_STATUS: u128 = 0x00000063_4c45_4b43_4942_265a524f5453;
pub const CRAFTY_AKKU_STATUS_2: u128 = 0x00000073_4c45_4b43_4942_265a524f5453;
pub const CRAFTY_LED_BRIGHTNESS: u128 = 0x00000051_4c45_4b43_4942_265a524f5453;
pub const CRAFTY_AUTO_OFF_COUNTDOWN: u128 = 0x00000061_4c45_4b43_4942_265a524f5453;
pub const CRAFTY_AUTO_OFF_CURRENT: u128 = 0x00000071_4c45_4b43_4942_265a524f5453;
pub const CRAFTY_POWER_CHANGED: u128 = 0x00000041_4c45_4b43_4942_265a524f5453;
pub const CRAFTY_USE_HOURS: u128 = 0x00000023_4c45_4b43_4942_265a524f5453;
pub const CRAFTY_USE_MINUTES: u128 = 0x000001e3_4c45_4b43_4942_265a524f5453;

} // verus!
