use truenorth::commands::{decode_declination, encode_declination, BluetoothCommand};
use truenorth::error::MagError;
use truenorth::motor::{servo_duty, servo_pulse_us, Motor};
use truenorth::smartvar::{SmartVar, SmartVarEvent};

#[test]
fn smartvar_set_and_get() {
    let mut var: SmartVar<i32> = SmartVar::new(0);
    assert_eq!(*var.get(), 0);
    let needs_save = var.set(42);
    assert!(!needs_save);
    assert_eq!(*var.get(), 42);
    assert_eq!(*var.get(), 42);
}

#[test]
fn smartvar_saves_only_with_a_configured_slot() {
    let mut var: SmartVar<i64> = SmartVar::new(-5);
    assert!(!var.set(1));
    var.setup_storage("truenorth".to_string(), "declination".to_string());
    assert!(var.set(2));
}

#[test]
fn smartvar_queues_changes_in_order() {
    let mut var: SmartVar<i32> = SmartVar::new(0);
    var.set(1);
    var.load_value(7);
    var.set(2);
    let pending = var.take_pending();
    assert_eq!(
        pending,
        vec![
            SmartVarEvent::Changed(1),
            SmartVarEvent::Changed(7),
            SmartVarEvent::Changed(2),
        ]
    );
    assert!(var.take_pending().is_empty());
    assert_eq!(*var.get(), 2);
}

#[test]
fn motor_angle_validation() {
    let mut motor = Motor::new();
    assert_eq!(motor.get_angle(), 0);
    assert_eq!(motor.set_angle(181), Err(MagError::InvalidArgument));
    assert_eq!(motor.set_angle(-1), Err(MagError::InvalidArgument));
    assert_eq!(motor.get_angle(), 0);
    assert_eq!(motor.set_angle(90), Ok(()));
    assert_eq!(motor.get_angle(), 90);
    assert_eq!(motor.set_angle(180), Ok(()));
    assert_eq!(motor.get_angle(), 180);
}

#[test]
fn servo_pulse_widths() {
    assert_eq!(servo_pulse_us(0), 500);
    assert_eq!(servo_pulse_us(90), 1500);
    assert_eq!(servo_pulse_us(180), 2500);
}

#[test]
fn servo_duty_values() {
    // A 13-bit PWM: 8191 max duty over a 20000 µs period.
    assert_eq!(servo_duty(1500, 8191), 1500 * 8191 / 20000);
    assert_eq!(servo_duty(500, 8191), 204);
    assert_eq!(servo_duty(2500, 0), 0);
    assert_eq!(servo_duty(2500, u32::MAX), ((2500u64 * u32::MAX as u64) / 20000) as u32);
}

#[test]
fn bluetooth_command_bytes() {
    assert_eq!(BluetoothCommand::from_u8(0x01), BluetoothCommand::ResetCalibrationData);
    assert_eq!(BluetoothCommand::from_u8(0x02), BluetoothCommand::Calibrate);
    assert_eq!(BluetoothCommand::from_u8(0x00), BluetoothCommand::Unknown);
    assert_eq!(BluetoothCommand::from_u8(0xFF), BluetoothCommand::Unknown);
    assert_eq!(BluetoothCommand::ResetCalibrationData.to_u8(), 0x01);
    assert_eq!(BluetoothCommand::Calibrate.to_u8(), 0x02);
    assert_eq!(BluetoothCommand::Unknown.to_u8(), 0x00);
}

#[test]
fn declination_little_endian_decoding() {
    assert_eq!(decode_declination(&[0x01, 0x00, 0x00, 0x00]), 1);
    assert_eq!(decode_declination(&[0xFF, 0xFF, 0xFF, 0xFF]), -1);
    assert_eq!(decode_declination(&[0x2C, 0x01, 0x00, 0x00]), 300);
    assert_eq!(decode_declination(&[0x00, 0x00, 0x00, 0x80]), i32::MIN);
    // Extra trailing bytes are ignored.
    assert_eq!(decode_declination(&[0x07, 0x00, 0x00, 0x00, 0xAA]), 7);
}

#[test]
fn declination_encoding_round_trips() {
    for v in [0, 1, -1, 300, -300, i32::MAX, i32::MIN] {
        let bytes = encode_declination(v);
        assert_eq!(bytes.len(), 4);
        assert_eq!(decode_declination(&bytes), v);
    }
    assert_eq!(encode_declination(-1), vec![0xFF, 0xFF, 0xFF, 0xFF]);
}
