use truenorth::defs::{MLX90393GAIN, MLX90393RESOLUTION};
use truenorth::protocol::parse_measurement_response;
use truenorth::tables::{decode_xy, decode_z, scale_pair};

#[test]
fn decode_is_raw_times_table_scale() {
    let cells = [
        (MLX90393RESOLUTION::RES16, MLX90393GAIN::GAIN5X),
        (MLX90393RESOLUTION::RES16, MLX90393GAIN::GAIN1X),
        (MLX90393RESOLUTION::RES17, MLX90393GAIN::GAIN4X),
        (MLX90393RESOLUTION::RES18, MLX90393GAIN::GAIN2_5X),
        (MLX90393RESOLUTION::RES19, MLX90393GAIN::GAIN1_33X),
        (MLX90393RESOLUTION::RES19, MLX90393GAIN::GAIN1X),
    ];
    let raws: [i16; 5] = [0, 1, -1, 1000, -32768];
    for (res, gain) in cells {
        let (sxy, sz) = scale_pair(res, gain);
        for raw in raws {
            assert_eq!(decode_xy(raw, res, gain), raw as i64 * sxy as i64);
            assert_eq!(decode_z(raw, res, gain), raw as i64 * sz as i64);
        }
    }
}

#[test]
fn table_corner_cells() {
    assert_eq!(scale_pair(MLX90393RESOLUTION::RES16, MLX90393GAIN::GAIN5X), (751, 1210));
    assert_eq!(scale_pair(MLX90393RESOLUTION::RES16, MLX90393GAIN::GAIN1X), (150, 242));
    assert_eq!(scale_pair(MLX90393RESOLUTION::RES19, MLX90393GAIN::GAIN5X), (6009, 9680));
    assert_eq!(scale_pair(MLX90393RESOLUTION::RES19, MLX90393GAIN::GAIN1X), (1202, 1936));
    assert_eq!(scale_pair(MLX90393RESOLUTION::RES17, MLX90393GAIN::GAIN4X), (1202, 1936));
}

#[test]
fn measurement_bytes_decode_to_documented_microtesla() {
    // Raw wire bytes: status clear, x = 1000, y = -500, z = 100. With unit
    // gain and 19-bit resolution on every axis the documented table row is
    // (1.202, 1.936) µT per count, so the axes come out at 1202.0, -601.0
    // and 193.6 µT.
    let bytes = [0x00, 0, 0, 0x03, 0xE8, 0xFE, 0x0C, 0x00, 0x64];
    let m = parse_measurement_response(&bytes).unwrap();
    let res = MLX90393RESOLUTION::RES19;
    let gain = MLX90393GAIN::GAIN1X;
    let x = decode_xy(m.x, res, gain);
    let y = decode_xy(m.y, res, gain);
    let z = decode_z(m.z, res, gain);
    assert_eq!(x, 1_202_000);
    assert_eq!(y, -601_000);
    assert_eq!(z, 193_600);
    assert_eq!(x as f32 / 1000.0, 1202.0);
    assert_eq!(y as f32 / 1000.0, -601.0);
    assert_eq!(z as f32 / 1000.0, 193.6);
}
