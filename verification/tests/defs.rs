use truenorth::defs::{
    MLX90393AXIS, MLX90393CMD, MLX90393FILTER, MLX90393GAIN, MLX90393OVERSAMPLING, MLX90393REG,
    MLX90393RESOLUTION, MagSensorState,
};

#[test]
fn command_opcodes_round_trip() {
    let cmds = [
        (MLX90393CMD::SB, 0x10),
        (MLX90393CMD::SW, 0x20),
        (MLX90393CMD::SM, 0x30),
        (MLX90393CMD::RM, 0x40),
        (MLX90393CMD::RR, 0x50),
        (MLX90393CMD::WR, 0x60),
        (MLX90393CMD::EX, 0x80),
        (MLX90393CMD::HR, 0xD0),
        (MLX90393CMD::HS, 0x70),
        (MLX90393CMD::RT, 0xF0),
        (MLX90393CMD::NOP, 0x00),
    ];
    for (cmd, byte) in cmds {
        assert_eq!(cmd.to_u8(), byte);
        assert_eq!(MLX90393CMD::from_u8(byte), Some(cmd));
    }
    assert_eq!(MLX90393CMD::from_u8(0x11), None);
}

#[test]
fn axis_masks_round_trip() {
    for (axis, byte) in [
        (MLX90393AXIS::X, 0x02),
        (MLX90393AXIS::Y, 0x04),
        (MLX90393AXIS::Z, 0x08),
        (MLX90393AXIS::ALL, 0x0E),
    ] {
        assert_eq!(axis.to_u8(), byte);
        assert_eq!(MLX90393AXIS::from_u8(byte), Some(axis));
    }
    assert_eq!(MLX90393AXIS::from_u8(0x01), None);
}

#[test]
fn register_indices() {
    assert_eq!(MLX90393REG::CONF1.to_u8(), 0);
    assert_eq!(MLX90393REG::CONF2.to_u8(), 1);
    assert_eq!(MLX90393REG::CONF3.to_u8(), 2);
}

#[test]
fn small_field_tags_reject_out_of_range_bytes() {
    assert_eq!(MLX90393GAIN::from_u8(7), Some(MLX90393GAIN::GAIN1X));
    assert_eq!(MLX90393GAIN::from_u8(8), None);
    assert_eq!(MLX90393RESOLUTION::from_u8(3), Some(MLX90393RESOLUTION::RES19));
    assert_eq!(MLX90393RESOLUTION::from_u8(4), None);
    assert_eq!(MLX90393FILTER::from_u8(7), Some(MLX90393FILTER::FILTER7));
    assert_eq!(MLX90393FILTER::from_u8(8), None);
    assert_eq!(MLX90393OVERSAMPLING::from_u8(3), Some(MLX90393OVERSAMPLING::OSR3));
    assert_eq!(MLX90393OVERSAMPLING::from_u8(4), None);
}

#[test]
fn state_bytes_round_trip() {
    for (state, byte) in [
        (MagSensorState::Idle, 0),
        (MagSensorState::Calibrating, 1),
        (MagSensorState::Measuring, 2),
    ] {
        assert_eq!(state.to_u8(), byte);
        assert_eq!(MagSensorState::from_u8(byte), Some(state));
    }
    assert_eq!(MagSensorState::from_u8(3), None);
}
