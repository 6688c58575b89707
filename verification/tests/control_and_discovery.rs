use storz_rs::protocol::venty::venty_heater_mode_command;
use storz_rs::HeaterMode;
use storz_rs::discovery::{contains_str, is_vaporizer_name, select_vaporizers, DEVICE_NAME_PREFIXES};
use storz_rs::protocol::control::{
    decode_reading, find_characteristic, handle_notification, plan_request, reading_source,
    subscriptions, unsupported, unsupported_by_default, CharacteristicWrite, Operation, Reading,
    ReadingSource, Request,
};
use storz_rs::protocol::venty::{venty_heater_command, venty_set_target_command};
use storz_rs::uuids::{
    CRAFTY_CURRENT_TEMP_CHANGED, CRAFTY_HEATER_OFF, CRAFTY_HEATER_ON, CRAFTY_WRITE_TEMP,
    VENTY_CONTROL, VOLCANO_ACTIVITY, VOLCANO_CURRENT_TEMP, VOLCANO_HEATER_OFF, VOLCANO_HEATER_ON,
    VOLCANO_PUMP_OFF, VOLCANO_PUMP_ON, VOLCANO_TARGET_TEMP,
};
use storz_rs::{DeviceModel, DeviceState, StorzError};

fn write(characteristic: u128, data: Vec<u8>) -> Result<CharacteristicWrite, StorzError> {
    Ok(CharacteristicWrite { characteristic, data })
}

fn unsupported_err(device: &str, operation: &str) -> StorzError {
    StorzError::UnsupportedOperation { device: device.to_string(), operation: operation.to_string() }
}

#[test]
fn volcano_requests() {
    let m = DeviceModel::VolcanoHybrid;
    assert_eq!(plan_request(m, Request::SetTargetTemperature(1850)), write(VOLCANO_TARGET_TEMP, vec![0x3A, 0x07, 0, 0]));
    assert_eq!(plan_request(m, Request::HeaterOn), write(VOLCANO_HEATER_ON, vec![0]));
    assert_eq!(plan_request(m, Request::HeaterOff), write(VOLCANO_HEATER_OFF, vec![0]));
    assert_eq!(plan_request(m, Request::PumpOn), write(VOLCANO_PUMP_ON, vec![0]));
    assert_eq!(plan_request(m, Request::PumpOff), write(VOLCANO_PUMP_OFF, vec![0]));
    assert_eq!(
        plan_request(m, Request::SetTargetTemperature(-10)),
        Err(StorzError::ParseError("temperature out of range".to_string()))
    );
}

#[test]
fn crafty_requests() {
    let m = DeviceModel::Crafty;
    assert_eq!(plan_request(m, Request::SetTargetTemperature(1850)), write(CRAFTY_WRITE_TEMP, vec![0x3A, 0x07]));
    assert_eq!(plan_request(m, Request::HeaterOn), write(CRAFTY_HEATER_ON, vec![0]));
    assert_eq!(plan_request(m, Request::HeaterOff), write(CRAFTY_HEATER_OFF, vec![0]));
    assert_eq!(plan_request(m, Request::PumpOn), Err(unsupported_err("Crafty", "pump_on")));
    assert_eq!(plan_request(m, Request::PumpOff), Err(unsupported_err("Crafty", "pump_off")));
    assert_eq!(
        plan_request(m, Request::SetTargetTemperature(70000)),
        Err(StorzError::ParseError("temperature out of range".to_string()))
    );
}

#[test]
fn venty_and_veazy_requests() {
    for (m, name) in [(DeviceModel::Venty, "Venty"), (DeviceModel::Veazy, "Veazy")] {
        assert_eq!(plan_request(m, Request::SetTargetTemperature(1850)), write(VENTY_CONTROL, venty_set_target_command(1850)));
        // out of range saturates instead of failing
        assert_eq!(plan_request(m, Request::SetTargetTemperature(-3)), write(VENTY_CONTROL, venty_set_target_command(0)));
        assert_eq!(plan_request(m, Request::SetTargetTemperature(100000)), write(VENTY_CONTROL, venty_set_target_command(65535)));
        assert_eq!(plan_request(m, Request::HeaterOn), write(VENTY_CONTROL, venty_heater_command(true)));
        assert_eq!(plan_request(m, Request::HeaterOff), write(VENTY_CONTROL, venty_heater_command(false)));
        assert_eq!(plan_request(m, Request::PumpOn), Err(unsupported_err(name, "pump_on")));
        assert_eq!(plan_request(m, Request::PumpOff), Err(unsupported_err(name, "pump_off")));
    }
}

#[test]
fn heater_mode_requests() {
    for m in [DeviceModel::Venty, DeviceModel::Veazy] {
        assert_eq!(plan_request(m, Request::SetHeaterMode(HeaterMode::Boost)), write(VENTY_CONTROL, venty_heater_mode_command(HeaterMode::Boost)));
    }
    for m in [DeviceModel::VolcanoHybrid, DeviceModel::Crafty] {
        assert_eq!(plan_request(m, Request::SetHeaterMode(HeaterMode::Normal)), Err(unsupported_err("unknown", "set_heater_mode")));
    }
}

#[test]
fn pump_only_on_volcano() {
    for m in [DeviceModel::VolcanoHybrid, DeviceModel::Venty, DeviceModel::Veazy, DeviceModel::Crafty] {
        let expect = m == DeviceModel::VolcanoHybrid;
        assert_eq!(plan_request(m, Request::PumpOn).is_ok(), expect);
        assert_eq!(plan_request(m, Request::PumpOff).is_ok(), expect);
        assert!(plan_request(m, Request::HeaterOn).is_ok());
        assert!(plan_request(m, Request::HeaterOff).is_ok());
        assert!(plan_request(m, Request::SetTargetTemperature(2300)).is_ok());
    }
}

#[test]
fn default_refusals() {
    assert_eq!(unsupported_by_default(Operation::GetSettings), unsupported_err("unknown", "get_settings"));
    assert_eq!(unsupported_by_default(Operation::FindMyDevice), unsupported_err("unknown", "find_my_device"));
    assert_eq!(unsupported_by_default(Operation::SetChargeVoltageLimit), unsupported_err("unknown", "set_charge_voltage_limit"));
    assert_eq!(unsupported("Venty", Operation::PumpOff), unsupported_err("Venty", "pump_off"));
    assert_eq!(Operation::SetSuperBoostTemperature.name(), "set_super_boost_temperature");
}

#[test]
fn reading_sources() {
    assert_eq!(reading_source(DeviceModel::VolcanoHybrid, Reading::Current), ReadingSource::Characteristic { uuid: VOLCANO_CURRENT_TEMP, wide: false });
    assert_eq!(reading_source(DeviceModel::VolcanoHybrid, Reading::Target), ReadingSource::Characteristic { uuid: VOLCANO_TARGET_TEMP, wide: true });
    assert_eq!(reading_source(DeviceModel::Crafty, Reading::Current), ReadingSource::Characteristic { uuid: CRAFTY_CURRENT_TEMP_CHANGED, wide: false });
    assert_eq!(reading_source(DeviceModel::Crafty, Reading::Target), ReadingSource::Characteristic { uuid: CRAFTY_WRITE_TEMP, wide: false });
    assert_eq!(reading_source(DeviceModel::Venty, Reading::Current), ReadingSource::Notifications);
    assert_eq!(reading_source(DeviceModel::Veazy, Reading::Target), ReadingSource::Notifications);
}

#[test]
fn decode_readings() {
    assert_eq!(decode_reading(false, &[0x3A, 0x07]), Ok(1850));
    assert_eq!(decode_reading(true, &[0x3A, 0x07, 0x01, 0x00]), Ok(0x1073A));
    assert_eq!(decode_reading(true, &[0x3A, 0x07]), Err(StorzError::ParseError("temperature reading too short".to_string())));
}

#[test]
fn written_target_reads_back() {
    for (m, t) in [(DeviceModel::VolcanoHybrid, 1850i64), (DeviceModel::Crafty, 2105)] {
        let w = plan_request(m, Request::SetTargetTemperature(t)).unwrap();
        match reading_source(m, Reading::Target) {
            ReadingSource::Characteristic { uuid, wide } => {
                assert_eq!(uuid, w.characteristic);
                assert_eq!(decode_reading(wide, &w.data), Ok(t as u32));
            }
            ReadingSource::Notifications => panic!("expected a characteristic"),
        }
    }
}

#[test]
fn subscription_lists() {
    assert_eq!(subscriptions(DeviceModel::VolcanoHybrid), vec![VOLCANO_ACTIVITY, VOLCANO_CURRENT_TEMP, VOLCANO_TARGET_TEMP]);
    assert_eq!(subscriptions(DeviceModel::Crafty), vec![CRAFTY_CURRENT_TEMP_CHANGED]);
    assert_eq!(subscriptions(DeviceModel::Venty), vec![VENTY_CONTROL]);
    assert_eq!(subscriptions(DeviceModel::Veazy), vec![VENTY_CONTROL]);
}

#[test]
fn dispatch_by_model() {
    let mut s = DeviceState::default();
    // the Venty looks at the bytes only, not at the characteristic
    let mut status = vec![0u8; 15];
    status[0] = 0x05;
    status[4] = 0xD0;
    status[5] = 0x07;
    assert!(handle_notification(DeviceModel::Veazy, &mut s, VOLCANO_ACTIVITY, &status));
    assert_eq!(s.target_temp, Some(2000));
    let mut s = DeviceState::default();
    assert!(!handle_notification(DeviceModel::Crafty, &mut s, VOLCANO_CURRENT_TEMP, &[1, 0]));
    assert!(handle_notification(DeviceModel::VolcanoHybrid, &mut s, VOLCANO_CURRENT_TEMP, &[1, 0]));
    assert_eq!(s.current_temp, Some(1));
}

#[test]
fn find_first_characteristic() {
    let available = [VOLCANO_ACTIVITY, VENTY_CONTROL, VENTY_CONTROL];
    assert_eq!(find_characteristic(&available, VENTY_CONTROL), Some(1));
    assert_eq!(find_characteristic(&available, VOLCANO_ACTIVITY), Some(0));
    assert_eq!(find_characteristic(&available, CRAFTY_WRITE_TEMP), None);
    assert_eq!(find_characteristic(&[], CRAFTY_WRITE_TEMP), None);
}

#[test]
fn substring_search() {
    assert!(contains_str("abcdef", "cde"));
    assert!(contains_str("abc", ""));
    assert!(contains_str("", ""));
    assert!(!contains_str("abc", "abcd"));
    assert!(!contains_str("abcabd", "abe"));
    assert!(contains_str("ääöx", "öx"));
}

#[test]
fn vaporizer_names() {
    for p in DEVICE_NAME_PREFIXES {
        assert!(is_vaporizer_name(p));
        assert!(is_vaporizer_name(&format!("xx {p} 123")));
    }
    assert!(is_vaporizer_name("S&B VY 0042"));
    assert!(is_vaporizer_name("STORZ&BICKEL"));
    assert!(!is_vaporizer_name("S&B V"));
    assert!(!is_vaporizer_name("storz&bickel"));
    assert!(!is_vaporizer_name("Some headphones"));
    assert!(!is_vaporizer_name(""));
}

#[test]
fn scan_selection() {
    let names = vec![
        Some("Headphones".to_string()),
        Some("S&B CRAFTY+".to_string()),
        None,
        Some("S&B VOLCANO H".to_string()),
        Some("Storz&Bickel Venty".to_string()),
    ];
    assert_eq!(select_vaporizers(&names), vec![1, 3, 4]);
    assert_eq!(select_vaporizers(&vec![None, None]), Vec::<usize>::new());
}
