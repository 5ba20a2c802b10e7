//! Decoding of the MPU6500's register bursts: big-endian signed 16-bit
//! words read over SPI after a one-byte register address.

use vstd::prelude::*;

verus! {

/// Set in a register address to read instead of write.
pub const SPI_READ: u8 = 0x80;
/// Read address of the first accelerometer register (ACCEL_XOUT_H).
pub const ACCEL_START: u8 = 0x3B | 0x80;
/// Read address of the first gyroscope register (GYRO_XOUT_H).
pub const GYRO_START: u8 = 0x43 | 0x80;
/// The value of the WHO_AM_I register on an MPU6500.
pub const WHO_AM_I_MPU6500: u8 = 0x70;

/// The signed value of a big-endian 16-bit word.
pub open spec fn be_i16(hi: u8, lo: u8) -> int {
    (if hi < 128 { hi as int } else { hi as int - 256 }) * 256 + lo as int
}

/// `i16::from_be_bytes([hi, lo])`.
fn i16_from_be(hi: u8, lo: u8) -> (v: i16)
    ensures
        v == be_i16(hi, lo),
{
    let h: i32 = if hi < 128 { hi as i32 } else { hi as i32 - 256 };
    (h * 256 + lo as i32) as i16
}

/// One raw sample of the sensor: accelerometer, temperature and gyroscope
/// words, as the sensor reports them.
#[derive(Clone, Copy, Debug, PartialEq, Eq, Structural)]
pub struct RawImuData {
    pub accel_x: i16,
    pub accel_y: i16,
    pub accel_z: i16,
    pub temp: i16,
    pub gyro_x: i16,
    pub gyro_y: i16,
    pub gyro_z: i16,
}

impl RawImuData {
    /// Decodes a 15-byte burst read that starts at ACCEL_XOUT_H: the byte the
    /// address was clocked out on, then seven big-endian words (accelerometer
    /// x, y, z, temperature, gyroscope x, y, z).
    pub fn from_burst(buf: &[u8; 15]) -> (r: RawImuData)
        ensures
            r.accel_x == be_i16(buf@[1], buf@[2]),
            r.accel_y == be_i16(buf@[3], buf@[4]),
            r.accel_z == be_i16(buf@[5], buf@[6]),
            r.temp == be_i16(buf@[7], buf@[8]),
            r.gyro_x == be_i16(buf@[9], buf@[10]),
            r.gyro_y == be_i16(buf@[11], buf@[12]),
            r.gyro_z == be_i16(buf@[13], buf@[14]),
    {
        RawImuData {
            accel_x: i16_from_be(buf[1], buf[2]),
            accel_y: i16_from_be(buf[3], buf[4]),
            accel_z: i16_from_be(buf[5], buf[6]),
            temp: i16_from_be(buf[7], buf[8]),
            gyro_x: i16_from_be(buf[9], buf[10]),
            gyro_y: i16_from_be(buf[11], buf[12]),
            gyro_z: i16_from_be(buf[13], buf[14]),
        }
    }
}

/// Decodes a 7-byte read of three consecutive axis registers (accelerometer
/// or gyroscope): the address byte, then the x, y and z words.
pub fn axes_from_read(buf: &[u8; 7]) -> (r: (i16, i16, i16))
    ensures
        r.0 == be_i16(buf@[1], buf@[2]),
        r.1 == be_i16(buf@[3], buf@[4]),
        r.2 == be_i16(buf@[5], buf@[6]),
{
    (i16_from_be(buf[1], buf[2]), i16_from_be(buf[3], buf[4]), i16_from_be(buf[5], buf[6]))
}

/// The high byte of a big-endian word.
pub open spec fn be_hi(v: i16) -> u8 {
    (if v < 0 { v + 65536 } else { v as int } / 256) as u8
}

/// The low byte of a big-endian word.
pub open spec fn be_lo(v: i16) -> u8 {
    (if v < 0 { v + 65536 } else { v as int } % 256) as u8
}

/// Every 16-bit signed value is read back from the two bytes that hold it.
pub proof fn lemma_be_i16_roundtrip(v: i16)
    ensures
        be_i16(be_hi(v), be_lo(v)) == v,
{
}

/// A sensor whose SPI clock can be changed.
pub trait AdjustableSpiSpeed {
    fn set_frequency(&mut self, freq_hz: u32);
}

/// The set of sensors on the board.
pub struct SensorRig;

} // verus!
