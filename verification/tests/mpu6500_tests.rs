use rust_fc::mpu6500::{axes_from_read, RawImuData, ACCEL_START, GYRO_START, WHO_AM_I_MPU6500};

#[test]
fn burst_decodes_big_endian_words() {
    let buf: [u8; 15] = [
        0xFF, 0x20, 0x00, 0xE0, 0x00, 0x00, 0x01, 0x80, 0x00, 0x7F, 0xFF, 0xFF, 0xFF, 0x12, 0x34,
    ];
    let raw = RawImuData::from_burst(&buf);
    assert_eq!(raw.accel_x, 0x2000);
    assert_eq!(raw.accel_y, -0x2000);
    assert_eq!(raw.accel_z, 1);
    assert_eq!(raw.temp, i16::MIN);
    assert_eq!(raw.gyro_x, i16::MAX);
    assert_eq!(raw.gyro_y, -1);
    assert_eq!(raw.gyro_z, 0x1234);
}

#[test]
fn burst_matches_from_be_bytes() {
    let mut buf = [0u8; 15];
    for (i, b) in buf.iter_mut().enumerate() {
        *b = (i as u8).wrapping_mul(37).wrapping_add(200);
    }
    let raw = RawImuData::from_burst(&buf);
    assert_eq!(raw.accel_x, i16::from_be_bytes([buf[1], buf[2]]));
    assert_eq!(raw.temp, i16::from_be_bytes([buf[7], buf[8]]));
    assert_eq!(raw.gyro_z, i16::from_be_bytes([buf[13], buf[14]]));
}

#[test]
fn axis_read_decodes_three_words() {
    let buf: [u8; 7] = [0x00, 0x00, 0x41, 0xFF, 0xBF, 0x80, 0x01];
    assert_eq!(axes_from_read(&buf), (65, -65, -32767));
}

#[test]
fn register_addresses() {
    assert_eq!(ACCEL_START, 0xBB);
    assert_eq!(GYRO_START, 0xC3);
    assert_eq!(WHO_AM_I_MPU6500, 0x70);
}
