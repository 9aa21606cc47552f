use truenorth::defs::{MLX90393AXIS, MLX90393CMD, MLX90393REG};
use truenorth::error::MagError;
use truenorth::protocol::{
    be_i16_value, command_byte, parse_measurement_response, parse_mode_ack,
    parse_read_register_response, parse_status, read_measurement_frame, read_register_frame,
    write_register_frame, BURST_MODE_ACK, SINGLE_MODE_ACK, WAKEUP_MODE_ACK,
};

#[test]
fn read_register_frame_layout() {
    assert_eq!(read_register_frame(MLX90393REG::CONF1), vec![0x50, 0x00]);
    assert_eq!(read_register_frame(MLX90393REG::CONF2), vec![0x50, 0x04]);
    assert_eq!(read_register_frame(MLX90393REG::CONF3), vec![0x50, 0x08]);
}

#[test]
fn write_register_frame_layout() {
    assert_eq!(
        write_register_frame(MLX90393REG::CONF1, 0x1234),
        vec![0x60, 0x12, 0x34, 0x00]
    );
    assert_eq!(
        write_register_frame(MLX90393REG::CONF3, 0xABCD),
        vec![0x60, 0xAB, 0xCD, 0x08]
    );
    assert_eq!(
        write_register_frame(MLX90393REG::CONF2, 0x0000),
        vec![0x60, 0x00, 0x00, 0x04]
    );
}

#[test]
fn mode_command_bytes() {
    assert_eq!(read_measurement_frame(), 0x4E);
    assert_eq!(command_byte(MLX90393CMD::SM, MLX90393AXIS::ALL), 0x3E);
    assert_eq!(command_byte(MLX90393CMD::SB, MLX90393AXIS::ALL), 0x1E);
    assert_eq!(command_byte(MLX90393CMD::SW, MLX90393AXIS::ALL), 0x2E);
    assert_eq!(command_byte(MLX90393CMD::RM, MLX90393AXIS::X), 0x42);
}

#[test]
fn status_error_bit_fails_the_call() {
    assert_eq!(parse_status(0x00), Ok(()));
    assert_eq!(parse_status(0x10), Err(MagError::Bus { status: 0x10 }));
    assert_eq!(parse_status(0x30), Err(MagError::Bus { status: 0x30 }));
    assert_eq!(parse_status(0x20), Ok(()));
}

#[test]
fn mode_ack_required_even_without_error() {
    assert_eq!(parse_mode_ack(0x20, SINGLE_MODE_ACK), Ok(()));
    assert_eq!(parse_mode_ack(0x80, BURST_MODE_ACK), Ok(()));
    assert_eq!(parse_mode_ack(0x40, WAKEUP_MODE_ACK), Ok(()));
    assert_eq!(
        parse_mode_ack(0x00, SINGLE_MODE_ACK),
        Err(MagError::Protocol { status: 0x00 })
    );
    assert_eq!(
        parse_mode_ack(0x80, SINGLE_MODE_ACK),
        Err(MagError::Protocol { status: 0x80 })
    );
    assert_eq!(
        parse_mode_ack(0x30, SINGLE_MODE_ACK),
        Err(MagError::Bus { status: 0x30 })
    );
}

#[test]
fn register_read_response_big_endian() {
    assert_eq!(parse_read_register_response(&[0x00, 0x12, 0x34]), Ok(0x1234));
    assert_eq!(parse_read_register_response(&[0x00, 0x00, 0x07]), Ok(7));
    assert_eq!(
        parse_read_register_response(&[0x10, 0x12, 0x34]),
        Err(MagError::Bus { status: 0x10 })
    );
}

#[test]
fn signed_big_endian_values() {
    assert_eq!(be_i16_value(0x03, 0xE8), 1000);
    assert_eq!(be_i16_value(0xFE, 0x0C), -500);
    assert_eq!(be_i16_value(0x00, 0x64), 100);
    assert_eq!(be_i16_value(0x80, 0x00), -32768);
    assert_eq!(be_i16_value(0x7F, 0xFF), 32767);
    assert_eq!(be_i16_value(0xFF, 0xFF), -1);
}

#[test]
fn measurement_response_axes() {
    let bytes = [0x00, 0, 0, 0x03, 0xE8, 0xFE, 0x0C, 0x00, 0x64];
    let m = parse_measurement_response(&bytes).unwrap();
    assert_eq!(m.x, 1000);
    assert_eq!(m.y, -500);
    assert_eq!(m.z, 100);
}

#[test]
fn measurement_response_error_bit() {
    let bytes = [0x10, 0, 0, 0x03, 0xE8, 0xFE, 0x0C, 0x00, 0x64];
    assert_eq!(
        parse_measurement_response(&bytes),
        Err(MagError::Bus { status: 0x10 })
    );
}
