use rust_fc::telemetry::{frame_log_packet, LOG_TYPE_IMU, LOG_TYPE_ORIENTATION};

#[test]
fn imu_packet_layout() {
    let payload: Vec<u8> = (1u8..=24).collect();
    let mut buf = [0u8; 32];
    let len = frame_log_packet(LOG_TYPE_IMU, &payload, &mut buf);
    assert_eq!(len, 29);
    assert_eq!(&buf[0..4], &[0xAA, 0xBB, 25, 1]);
    assert_eq!(&buf[4..28], &payload[..]);
    // 1 + (1 + ... + 24) = 301, modulo 256 = 45.
    assert_eq!(buf[28], 45);
    assert_eq!(&buf[29..], &[0, 0, 0]);
}

#[test]
fn orientation_packet_layout() {
    let payload = [0xFFu8; 16];
    let mut buf = [0x55u8; 32];
    let len = frame_log_packet(LOG_TYPE_ORIENTATION, &payload, &mut buf);
    assert_eq!(len, 21);
    assert_eq!(&buf[0..4], &[0xAA, 0xBB, 17, 2]);
    // 2 + 16 * 255 = 4082, modulo 256 = 242.
    assert_eq!(buf[20], 242);
    assert!(buf[21..].iter().all(|b| *b == 0x55));
}

#[test]
fn checksum_covers_type_and_payload() {
    let payload = [10u8, 20, 30];
    let mut buf = [0u8; 32];
    let len = frame_log_packet(7, &payload, &mut buf);
    let p = &buf[..len];
    let sum: u32 = p[3..p.len() - 1].iter().map(|b| *b as u32).sum();
    assert_eq!(*p.last().unwrap() as u32, sum % 256);
    assert_eq!(p[2] as usize, p.len() - 4);
}

#[test]
fn empty_payload() {
    let mut buf = [0u8; 32];
    let len = frame_log_packet(3, &[], &mut buf);
    assert_eq!(&buf[..len], &[0xAA, 0xBB, 1, 3, 3]);
}

#[test]
fn largest_payload_fills_the_buffer() {
    let payload = [1u8; 27];
    let mut buf = [0u8; 32];
    let len = frame_log_packet(9, &payload, &mut buf);
    assert_eq!(len, 32);
    assert_eq!(buf[2], 28);
    assert_eq!(buf[31], 36);
}
