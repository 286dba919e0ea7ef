//! MPU9250 sensor helpers: register constants and the big-endian decoding of
//! the six-byte sensor bursts. The I2C transfers themselves live with the
//! hardware glue; only decoded bytes enter here.

use vstd::prelude::*;

verus! {

pub const MPU_ADDR: u8 = 0x68;

pub const WHO_AM_I_REG: u8 = 0x75;

pub const EXPECTED_WHO_AM_I: u8 = 0x71;

pub const PWR_MGMT_1: u8 = 0x6B;

pub const ACCEL_XOUT_H: u8 = 0x3B;

pub const GYRO_XOUT_H: u8 = 0x43;

/// The signed 16-bit value held big-endian in `hi`, `lo`.
pub open spec fn be_i16(hi: u8, lo: u8) -> i16 {
    (hi * 256 + lo) as u16 as i16
}

#[derive(Debug, Clone, Copy, PartialEq, Eq, Structural)]
pub struct AccelData {
    pub x: i16,
    pub y: i16,
    pub z: i16,
}

#[derive(Debug, Clone, Copy, PartialEq, Eq, Structural)]
pub struct GyroData {
    pub x: i16,
    pub y: i16,
    pub z: i16,
}

/// Decodes one big-endian 16-bit sample.
pub fn decode_be_i16(hi: u8, lo: u8) -> (v: i16)
    ensures
        v == be_i16(hi, lo),
{
    ((hi as u16) * 256 + (lo as u16)) as i16
}

impl AccelData {
    /// Decodes the six-byte accelerometer burst: X, Y, Z, each big-endian.
    pub fn from_bytes(buf: &[u8]) -> (d: AccelData)
        requires
            buf@.len() == 6,
        ensures
            d.x == be_i16(buf@[0], buf@[1]),
            d.y == be_i16(buf@[2], buf@[3]),
            d.z == be_i16(buf@[4], buf@[5]),
    {
        AccelData {
            x: decode_be_i16(buf[0], buf[1]),
            y: decode_be_i16(buf[2], buf[3]),
            z: decode_be_i16(buf[4], buf[5]),
        }
    }
}

impl GyroData {
    /// Decodes the six-byte gyroscope burst: X, Y, Z, each big-endian.
    pub fn from_bytes(buf: &[u8]) -> (d: GyroData)
        requires
            buf@.len() == 6,
        ensures
            d.x == be_i16(buf@[0], buf@[1]),
            d.y == be_i16(buf@[2], buf@[3]),
            d.z == be_i16(buf@[4], buf@[5]),
    {
        GyroData {
            x: decode_be_i16(buf[0], buf[1]),
            y: decode_be_i16(buf[2], buf[3]),
            z: decode_be_i16(buf[4], buf[5]),
        }
    }
}

} // verus!
