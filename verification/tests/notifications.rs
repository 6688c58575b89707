use storz_rs::protocol::venty::venty_heater_mode_command;
use storz_rs::HeaterMode;
use storz_rs::device::volcano_flags::{AUTO_SHUTDOWN, HEATER_ENABLED, PUMP_ENABLED};
use storz_rs::protocol::crafty::handle_crafty_notification;
use storz_rs::protocol::venty::{
    build_venty_command, decode_venty_notification, decode_venty_settings,
    handle_venty_notification, venty_heater_command, venty_init_commands,
    venty_set_target_command, VentySettings,
};
use storz_rs::protocol::volcano::handle_volcano_notification;
use storz_rs::uuids::{
    CRAFTY_CURRENT_TEMP_CHANGED, CRAFTY_WRITE_TEMP, VENTY_CONTROL, VOLCANO_ACTIVITY,
    VOLCANO_CURRENT_TEMP, VOLCANO_TARGET_TEMP,
};
use storz_rs::DeviceState;

fn status(cmd: u8, target: u16, heater: u8, settings: u8) -> Vec<u8> {
    let mut d = vec![0u8; 20];
    d[0] = cmd;
    d[2] = 0xD2; // current 210 = 21.0 °C
    d[3] = 0x00;
    d[4] = (target & 0xFF) as u8;
    d[5] = (target >> 8) as u8;
    d[11] = heater;
    d[14] = settings;
    d
}

#[test]
fn volcano_flag_values() {
    assert_eq!(HEATER_ENABLED, 0x0020);
    assert_eq!(AUTO_SHUTDOWN, 0x0200);
    assert_eq!(PUMP_ENABLED, 0x2000);
}

#[test]
fn uuid_values() {
    assert_eq!(VOLCANO_TARGET_TEMP, 0x10110003_5354_4f52_5a26_4249434b454c);
    assert_eq!(VENTY_CONTROL, 0x00000001_5354_4f52_5a26_4249434b454c);
    assert_eq!(CRAFTY_WRITE_TEMP, 0x00000021_4c45_4b43_4942_265a524f5453);
}

#[test]
fn build_command_layout() {
    let buf = build_venty_command(0x01, 0x02, &[(4, 0x3A), (5, 0x07)]);
    let mut expected = vec![0u8; 20];
    expected[0] = 0x01;
    expected[1] = 0x02;
    expected[4] = 0x3A;
    expected[5] = 0x07;
    assert_eq!(buf, expected);
    // later pairs win
    let buf = build_venty_command(0x09, 0x00, &[(7, 1), (7, 2)]);
    assert_eq!(buf[7], 2);
    assert_eq!(buf.len(), 20);
    assert_eq!(build_venty_command(0x02, 0, &[]), {
        let mut e = vec![0u8; 20];
        e[0] = 2;
        e
    });
}

#[test]
fn venty_commands() {
    let set = venty_set_target_command(1850);
    assert_eq!(set, build_venty_command(0x01, 0x02, &[(4, 0x3A), (5, 0x07)]));
    assert_eq!(venty_heater_command(true), build_venty_command(0x01, 0x20, &[(11, 1)]));
    assert_eq!(venty_heater_command(false), build_venty_command(0x01, 0x20, &[(11, 0)]));
    let init = venty_init_commands();
    let cmds: Vec<u8> = init.iter().map(|c| c[0]).collect();
    assert_eq!(cmds, vec![0x02, 0x1D, 0x01, 0x04]);
    for c in &init {
        assert_eq!(c.len(), 20);
        assert!(c[1..].iter().all(|&b| b == 0));
    }
}

#[test]
fn venty_status_updates_state() {
    let mut s = DeviceState::default();
    s.pump_on = true;
    s.current_temp = Some(200);
    assert!(handle_venty_notification(&mut s, &status(0x01, 1850, 1, 0x02)));
    assert_eq!(s.target_temp, Some(1850));
    assert!(s.heater_on);
    assert!(s.setpoint_reached);
    assert!(!s.pump_on);
    assert_eq!(s.current_temp, Some(210));
    assert_eq!(s.cached_current_temperature(), Ok(210));
    assert_eq!(s.cached_target_temperature(), Ok(1850));

    assert!(handle_venty_notification(&mut s, &status(0x05, 2100, 0, 0x41)));
    assert_eq!(s.target_temp, Some(2100));
    assert!(!s.heater_on);
    assert!(!s.setpoint_reached);
}

#[test]
fn venty_ignores_other_notifications() {
    let before = {
        let mut s = DeviceState::default();
        s.target_temp = Some(1700);
        s.heater_on = true;
        s
    };
    let mut s = before;
    assert!(!handle_venty_notification(&mut s, &[]));
    assert!(!handle_venty_notification(&mut s, &status(0x02, 1850, 1, 2)));
    assert!(!handle_venty_notification(&mut s, &status(0x01, 1850, 1, 2)[..14]));
    assert_eq!(s, before);
    // exactly 15 bytes is enough
    assert!(handle_venty_notification(&mut s, &status(0x01, 1850, 1, 2)[..15]));
}

#[test]
fn venty_repeated_notification_is_idempotent() {
    let mut s = DeviceState::default();
    let n = status(0x01, 1990, 3, 0x02);
    handle_venty_notification(&mut s, &n);
    let once = s;
    handle_venty_notification(&mut s, &n);
    assert_eq!(s, once);
}

#[test]
fn venty_heater_mode_commands() {
    assert_eq!(venty_heater_mode_command(HeaterMode::Boost), build_venty_command(0x01, 0x20, &[(11, 2)]));
    assert_eq!(venty_heater_mode_command(HeaterMode::SuperBoost), build_venty_command(0x01, 0x20, &[(11, 3)]));
    assert_eq!(venty_heater_mode_command(HeaterMode::Normal), venty_heater_command(true));
    assert_eq!(venty_heater_mode_command(HeaterMode::Off), venty_heater_command(false));
}

#[test]
fn venty_set_target_command_reads_back_as_status() {
    let mut s = DeviceState::default();
    assert!(handle_venty_notification(&mut s, &venty_set_target_command(1855)));
    assert_eq!(s.target_temp, Some(1855));
}

#[test]
fn venty_decode_all_fields() {
    let data: Vec<u8> = vec![
        0x01, 0x06, 0x10, 0x27, 0x3A, 0x07, 10, 20, 85, 0x2C, 0x01, 2, 0xAA, 1, 0x42,
    ];
    let n = decode_venty_notification(&data).unwrap();
    assert_eq!(n.cmd_id, 0x01);
    assert_eq!(n.mask, Some(0x06));
    assert_eq!(n.current_temp, Some(10000));
    assert_eq!(n.target_temp, Some(1850));
    assert_eq!(n.boost_temp, Some(10));
    assert_eq!(n.super_boost_temp, Some(20));
    assert_eq!(n.battery, Some(85));
    assert_eq!(n.shutdown_timer, Some(300));
    assert_eq!(n.heater_mode, Some(2));
    assert_eq!(n.charger, Some(1));
    assert_eq!(
        n.settings,
        Some(VentySettings { raw: 0x42, celsius: true, setpoint_reached: true, vibration: true })
    );
}

#[test]
fn venty_decode_short_and_empty() {
    assert_eq!(decode_venty_notification(&[]), None);
    let n = decode_venty_notification(&[0x05, 0x01, 0x02]).unwrap();
    assert_eq!(n.cmd_id, 0x05);
    assert_eq!(n.mask, Some(0x01));
    assert_eq!(n.current_temp, None);
    assert_eq!(n.target_temp, None);
    assert_eq!(n.settings, None);
    let n = decode_venty_notification(&[0u8; 11]).unwrap();
    assert_eq!(n.shutdown_timer, Some(0));
    assert_eq!(n.heater_mode, None);
    assert_eq!(
        decode_venty_settings(0x01),
        VentySettings { raw: 1, celsius: false, setpoint_reached: false, vibration: false }
    );
}

#[test]
fn volcano_activity_sets_flags() {
    let mut s = DeviceState::default();
    s.current_temp = Some(300);
    assert!(handle_volcano_notification(&mut s, VOLCANO_ACTIVITY, &[0x20, 0x20]));
    assert_eq!(s.raw_activity, Some(0x2020));
    assert!(s.heater_on);
    assert!(s.pump_on);
    assert_eq!(s.current_temp, Some(300));
    assert!(handle_volcano_notification(&mut s, VOLCANO_ACTIVITY, &[0x00, 0x02]));
    assert_eq!(s.raw_activity, Some(0x0200));
    assert!(!s.heater_on);
    assert!(!s.pump_on);
    let before = s;
    assert!(!handle_volcano_notification(&mut s, VOLCANO_ACTIVITY, &[0x20]));
    assert_eq!(s, before);
}

#[test]
fn volcano_temperatures() {
    let mut s = DeviceState::default();
    assert!(handle_volcano_notification(&mut s, VOLCANO_CURRENT_TEMP, &[0xD2, 0x00]));
    assert_eq!(s.current_temp, Some(210));
    assert!(handle_volcano_notification(&mut s, VOLCANO_TARGET_TEMP, &[0x3A, 0x07, 0, 0]));
    assert_eq!(s.target_temp, Some(1850));
    let before = s;
    assert!(!handle_volcano_notification(&mut s, VOLCANO_TARGET_TEMP, &[0x3A, 0x07]));
    assert!(!handle_volcano_notification(&mut s, VENTY_CONTROL, &[0x3A, 0x07, 0, 0]));
    assert_eq!(s, before);
}

#[test]
fn crafty_current_temperature() {
    let mut s = DeviceState::default();
    assert!(handle_crafty_notification(&mut s, CRAFTY_CURRENT_TEMP_CHANGED, &[0x2C, 0x01]));
    assert_eq!(s.current_temp, Some(300));
    let before = s;
    assert!(!handle_crafty_notification(&mut s, CRAFTY_CURRENT_TEMP_CHANGED, &[0x2C]));
    assert!(!handle_crafty_notification(&mut s, CRAFTY_WRITE_TEMP, &[0x2C, 0x01]));
    assert_eq!(s, before);
}

#[test]
fn volcano_repeated_notification_is_idempotent() {
    let mut s = DeviceState::default();
    for (uuid, data) in [
        (VOLCANO_ACTIVITY, vec![0x20u8, 0x00]),
        (VOLCANO_CURRENT_TEMP, vec![0x10, 0x01]),
        (VOLCANO_TARGET_TEMP, vec![0x3A, 0x07, 0, 0]),
    ] {
        handle_volcano_notification(&mut s, uuid, &data);
        let once = s;
        handle_volcano_notification(&mut s, uuid, &data);
        assert_eq!(s, once);
    }
    assert_eq!(s.raw_activity, Some(0x20));
    assert_eq!(s.current_temp, Some(0x110));
    assert_eq!(s.target_temp, Some(1850));
}
