//! Structured record types for machine-parseable hardware event logging.

use vstd::prelude::*;

verus! {

/// I2C transaction event.
#[derive(Debug, Clone, Copy, PartialEq, Eq, Structural)]
pub struct I2cTransaction {
    pub addr: u8,
    pub operation: I2cOperation,
    pub bytes_transferred: u16,
    pub status: I2cStatus,
}

/// I2C operation types.
#[derive(Debug, Clone, Copy, PartialEq, Eq, Structural)]
pub enum I2cOperation {
    Write,
    Read,
    WriteRead,
}

/// I2C status codes.
#[derive(Debug, Clone, Copy, PartialEq, Eq, Structural)]
pub enum I2cStatus {
    Success,
    Timeout,
    Nack,
    BusError,
}

/// GPIO state change event.
#[derive(Debug, Clone, Copy, PartialEq, Eq, Structural)]
pub struct GpioEvent {
    pub pin: u8,
    pub state: GpioState,
    pub timestamp_us: u32,
}

/// GPIO pin states.
#[derive(Debug, Clone, Copy, PartialEq, Eq, Structural)]
pub enum GpioState {
    High,
    Low,
    Interrupt,
}

/// Inertial measurement unit reading.
#[derive(Debug, Clone, Copy, PartialEq, Eq, Structural)]
pub struct ImuReading {
    pub accel_x: i16,
    pub accel_y: i16,
    pub accel_z: i16,
    pub gyro_x: i16,
    pub gyro_y: i16,
    pub gyro_z: i16,
    pub temp: i16,
    pub timestamp_us: u32,
}

impl ImuReading {
    /// Create a new IMU reading with all zero values.
    pub fn new() -> (r: ImuReading)
        ensures
            r == (ImuReading {
                accel_x: 0, accel_y: 0, accel_z: 0,
                gyro_x: 0, gyro_y: 0, gyro_z: 0,
                temp: 0, timestamp_us: 0,
            }),
    {
        ImuReading {
            accel_x: 0,
            accel_y: 0,
            accel_z: 0,
            gyro_x: 0,
            gyro_y: 0,
            gyro_z: 0,
            temp: 0,
            timestamp_us: 0,
        }
    }

    /// Create an IMU reading with specific values.
    pub fn with_values(
        accel_x: i16,
        accel_y: i16,
        accel_z: i16,
        gyro_x: i16,
        gyro_y: i16,
        gyro_z: i16,
        temp: i16,
        timestamp_us: u32,
    ) -> (r: ImuReading)
        ensures
            r == (ImuReading {
                accel_x, accel_y, accel_z, gyro_x, gyro_y, gyro_z, temp, timestamp_us,
            }),
    {
        ImuReading { accel_x, accel_y, accel_z, gyro_x, gyro_y, gyro_z, temp, timestamp_us }
    }
}

/// Sensor health status.
#[derive(Debug, Clone, Copy, PartialEq, Eq, Structural)]
pub struct SensorStatus {
    pub device_id: u8,
    pub is_healthy: bool,
    pub error_count: u16,
    pub sample_count: u32,
}

} // verus!
