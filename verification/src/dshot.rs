//! DShot motor frames: an 11-bit throttle value, a telemetry request bit
//! and a 4-bit checksum packed into one 16-bit word.

use vstd::prelude::*;

verus! {

/// Largest throttle value that fits the 11-bit throttle field.
pub const DSHOT_THROTTLE_MAX: u16 = 2047;

/// The throttle value that is actually transmitted for a requested one.
pub open spec fn clamped_throttle(throttle: u16) -> u16 {
    if throttle <= DSHOT_THROTTLE_MAX { throttle } else { DSHOT_THROTTLE_MAX }
}

/// The 12 data bits of a frame: the throttle followed by the telemetry bit.
pub open spec fn dshot_data(throttle: u16, telemetry: bool) -> u16 {
    (2 * clamped_throttle(throttle) + if telemetry { 1int } else { 0int }) as u16
}

/// The DShot checksum of 12 data bits: the XOR of their three nibbles.
pub open spec fn dshot_crc(data: u16) -> u16 {
    (data ^ (data >> 4u16) ^ (data >> 8u16)) & 0x0Fu16
}

/// The complete frame: data bits in the upper 12 bits, checksum in the lower 4.
pub open spec fn dshot_frame(throttle: u16, telemetry: bool) -> u16 {
    (16 * dshot_data(throttle, telemetry) + dshot_crc(dshot_data(throttle, telemetry))) as u16
}

/// Whether the checksum nibble of `frame` matches its data bits.
pub open spec fn dshot_checksum_valid(frame: u16) -> bool {
    frame & 0x0Fu16 == dshot_crc(frame >> 4u16)
}

/// Packs a throttle value (clamped to 2047) and a telemetry request into a
/// DShot frame with its checksum.
pub fn create_dshot_frame(throttle: u16, telemetry: bool) -> (frame: u16)
    ensures
        frame == dshot_frame(throttle, telemetry),
{
    let throttle = if throttle < DSHOT_THROTTLE_MAX { throttle } else { DSHOT_THROTTLE_MAX };
    let tel: u16 = if telemetry { 1 } else { 0 };
    let data: u16 = (throttle << 1u16) | tel;
    assert(data == 2 * throttle + tel) by (bit_vector)
        requires
            throttle <= 2047u16,
            tel <= 1u16,
            data == (throttle << 1u16) | tel,
    ;
    let crc: u16 = (data ^ (data >> 4u16) ^ (data >> 8u16)) & 0x0F;
    assert(crc <= 15u16) by (bit_vector)
        requires crc == (data ^ (data >> 4u16) ^ (data >> 8u16)) & 0x0Fu16;
    let frame: u16 = (data << 4u16) | crc;
    assert(frame == 16 * data + crc) by (bit_vector)
        requires
            data <= 4095u16,
            crc <= 15u16,
            frame == (data << 4u16) | crc,
    ;
    frame
}

/// Every frame that `create_dshot_frame` builds carries a valid checksum,
/// and its data bits give back the (clamped) throttle and the telemetry bit.
pub proof fn lemma_dshot_frame_roundtrip(throttle: u16, telemetry: bool)
    ensures
        dshot_checksum_valid(dshot_frame(throttle, telemetry)),
        dshot_frame(throttle, telemetry) >> 5u16 == clamped_throttle(throttle),
        (dshot_frame(throttle, telemetry) >> 4u16) & 1u16 == (if telemetry { 1u16 } else { 0u16 }),
{
    let t = clamped_throttle(throttle);
    let b: u16 = if telemetry { 1 } else { 0 };
    let data = dshot_data(throttle, telemetry);
    let crc = dshot_crc(data);
    let frame = dshot_frame(throttle, telemetry);
    assert(data == 2 * t + b);
    assert(crc <= 15u16) by (bit_vector)
        requires crc == (data ^ (data >> 4u16) ^ (data >> 8u16)) & 0x0Fu16;
    assert(frame == 16 * data + crc);
    assert(frame & 0x0Fu16 == crc && frame >> 4u16 == data) by (bit_vector)
        requires
            data <= 4095u16,
            crc <= 15u16,
            frame == 16 * data + crc,
    ;
    assert(data >> 1u16 == t && data & 1u16 == b) by (bit_vector)
        requires
            t <= 2047u16,
            b <= 1u16,
            data == 2 * t + b,
    ;
    assert(frame >> 5u16 == (frame >> 4u16) >> 1u16) by (bit_vector);
}

/// The word pushed into the PIO transmit FIFO for a frame: the PIO shifts
/// out to the left with a 16-bit threshold, so the frame occupies the
/// upper half of the word.
pub fn pio_tx_word(packet: u16) -> (word: u32)
    ensures
        word == packet * 65536,
{
    let p: u32 = packet as u32;
    let word: u32 = p << 16u32;
    assert(word == p * 65536) by (bit_vector)
        requires
            p <= 65535u32,
            word == p << 16u32,
    ;
    word
}

} // verus!
