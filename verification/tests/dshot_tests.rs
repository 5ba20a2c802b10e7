use rust_fc::dshot::{create_dshot_frame, pio_tx_word};

#[test]
fn zero_throttle_frame_is_zero() {
    assert_eq!(create_dshot_frame(0, false), 0);
}

#[test]
fn frame_packs_throttle_and_checksum() {
    // 1046 << 1 = 0x82C; checksum 0x8 ^ 0x2 ^ 0xC = 0x6.
    assert_eq!(create_dshot_frame(1046, false), 0x82C6);
    assert_eq!(create_dshot_frame(48, false), 0x0606);
}

#[test]
fn telemetry_bit_changes_data_and_checksum() {
    assert_eq!(create_dshot_frame(1046, true), 0x82D7);
}

#[test]
fn throttle_is_clamped_to_eleven_bits() {
    assert_eq!(create_dshot_frame(2047, false), 0xFFEE);
    assert_eq!(create_dshot_frame(3000, false), 0xFFEE);
    assert_eq!(create_dshot_frame(u16::MAX, false), 0xFFEE);
}

#[test]
fn every_frame_decodes_back() {
    for throttle in 0u16..=2100 {
        for telemetry in [false, true] {
            let frame = create_dshot_frame(throttle, telemetry);
            assert_eq!(frame >> 5, throttle.min(2047));
            assert_eq!((frame >> 4) & 1, telemetry as u16);
            let data = frame >> 4;
            assert_eq!(frame & 0xF, (data ^ (data >> 4) ^ (data >> 8)) & 0xF);
        }
    }
}

#[test]
fn command_frames() {
    assert_eq!(create_dshot_frame(7, false), 0x00EE);
    assert_eq!(create_dshot_frame(8, false), 0x0101);
    assert_eq!(create_dshot_frame(12, false), 0x0189);
}

#[test]
fn fifo_word_places_frame_in_upper_half() {
    assert_eq!(pio_tx_word(0x82C6), 0x82C6_0000);
    assert_eq!(pio_tx_word(0), 0);
    assert_eq!(pio_tx_word(u16::MAX), 0xFFFF_0000);
}
