//! Telemetry counters and register-state trackers for structured hardware
//! state reporting.

use vstd::prelude::*;

verus! {

/// I2C communication statistics.
#[derive(Debug, Clone, Copy, PartialEq, Eq, Structural)]
pub struct I2CStatus {
    pub write_attempts: u32,
    pub write_success: u32,
    pub read_attempts: u32,
    pub read_success: u32,
    pub error_count: u32,
    pub last_addr: u8,
    pub last_value: u16,
}

impl I2CStatus {
    pub fn new() -> (s: I2CStatus)
        ensures
            s == (I2CStatus {
                write_attempts: 0,
                write_success: 0,
                read_attempts: 0,
                read_success: 0,
                error_count: 0,
                last_addr: 0,
                last_value: 0,
            }),
    {
        I2CStatus {
            write_attempts: 0,
            write_success: 0,
            read_attempts: 0,
            read_success: 0,
            error_count: 0,
            last_addr: 0,
            last_value: 0,
        }
    }

    /// Counts one write attempt and remembers its address and value.
    pub fn record_write(&mut self, addr: u8, value: u16)
        requires
            old(self).write_attempts < u32::MAX,
        ensures
            *final(self) == (I2CStatus {
                write_attempts: (old(self).write_attempts + 1) as u32,
                last_addr: addr,
                last_value: value,
                ..*old(self)
            }),
    {
        self.write_attempts = self.write_attempts + 1;
        self.last_addr = addr;
        self.last_value = value;
    }

    /// Counts one successful write.
    pub fn record_write_success(&mut self)
        requires
            old(self).write_success < u32::MAX,
        ensures
            *final(self) == (I2CStatus {
                write_success: (old(self).write_success + 1) as u32,
                ..*old(self)
            }),
    {
        self.write_success = self.write_success + 1;
    }

    /// Counts one read attempt and remembers its address.
    pub fn record_read(&mut self, addr: u8)
        requires
            old(self).read_attempts < u32::MAX,
        ensures
            *final(self) == (I2CStatus {
                read_attempts: (old(self).read_attempts + 1) as u32,
                last_addr: addr,
                ..*old(self)
            }),
    {
        self.read_attempts = self.read_attempts + 1;
        self.last_addr = addr;
    }

    /// Counts one successful read.
    pub fn record_read_success(&mut self)
        requires
            old(self).read_success < u32::MAX,
        ensures
            *final(self) == (I2CStatus {
                read_success: (old(self).read_success + 1) as u32,
                ..*old(self)
            }),
    {
        self.read_success = self.read_success + 1;
    }

    /// Counts one error.
    pub fn record_error(&mut self)
        requires
            old(self).error_count < u32::MAX,
        ensures
            *final(self) == (I2CStatus {
                error_count: (old(self).error_count + 1) as u32,
                ..*old(self)
            }),
    {
        self.error_count = self.error_count + 1;
    }

    /// Write success percentage; zero attempts count as zero percent.
    pub fn write_success_rate(&self) -> (r: u8)
        requires
            self.write_success <= self.write_attempts,
            self.write_success * 100 <= u32::MAX,
        ensures
            r == if self.write_attempts == 0 {
                0int
            } else {
                self.write_success * 100 / self.write_attempts as int
            },
            r <= 100,
    {
        if self.write_attempts == 0 {
            0
        } else {
            proof {
                assert(self.write_success * 100 / (self.write_attempts as int) <= 100)
                    by (nonlinear_arith)
                    requires 0 < self.write_attempts, 0 <= self.write_success <= self.write_attempts
                ;
            }
            ((self.write_success * 100) / self.write_attempts) as u8
        }
    }

    /// Read success percentage; zero attempts count as zero percent.
    pub fn read_success_rate(&self) -> (r: u8)
        requires
            self.read_success <= self.read_attempts,
            self.read_success * 100 <= u32::MAX,
        ensures
            r == if self.read_attempts == 0 {
                0int
            } else {
                self.read_success * 100 / self.read_attempts as int
            },
            r <= 100,
    {
        if self.read_attempts == 0 {
            0
        } else {
            proof {
                assert(self.read_success * 100 / (self.read_attempts as int) <= 100)
                    by (nonlinear_arith)
                    requires 0 < self.read_attempts, 0 <= self.read_success <= self.read_attempts
                ;
            }
            ((self.read_success * 100) / self.read_attempts) as u8
        }
    }
}

/// Configuration register state: the word written, the word read back, and
/// the fields decoded from the written word.
#[derive(Debug, Clone, Copy, PartialEq, Eq, Structural)]
pub struct ConfigRegisterState {
    pub written: u16,
    pub readback: u16,
    pub mux: u8,
    pub pga: u8,
    pub mode: u8,
    pub dr: u8,
}

impl ConfigRegisterState {
    pub fn new() -> (s: ConfigRegisterState)
        ensures
            s == (ConfigRegisterState { written: 0, readback: 0, mux: 0, pga: 0, mode: 0, dr: 0 }),
    {
        ConfigRegisterState { written: 0, readback: 0, mux: 0, pga: 0, mode: 0, dr: 0 }
    }

    /// Decodes a raw register word: mux in bits 12 to 14, pga in 9 to 11,
    /// mode in bit 8, data rate in bits 5 to 7.
    pub fn from_raw(raw: u16) -> (s: ConfigRegisterState)
        ensures
            s.written == raw,
            s.readback == 0,
            s.mux == (raw >> 12) & 0x7,
            s.pga == (raw >> 9) & 0x7,
            s.mode == (raw >> 8) & 0x1,
            s.dr == (raw >> 5) & 0x7,
    {
        proof {
            assert((raw >> 12) & 0x7 < 256 && (raw >> 9) & 0x7 < 256 && (raw >> 8) & 0x1 < 256
                && (raw >> 5) & 0x7 < 256) by (bit_vector);
        }
        ConfigRegisterState {
            written: raw,
            readback: 0,
            mux: ((raw >> 12) & 0x7) as u8,
            pga: ((raw >> 9) & 0x7) as u8,
            mode: ((raw >> 8) & 0x1) as u8,
            dr: ((raw >> 5) & 0x7) as u8,
        }
    }

    /// Stores the word read back from the device.
    pub fn set_readback(&mut self, raw: u16)
        ensures
            *final(self) == (ConfigRegisterState { readback: raw, ..*old(self) }),
    {
        self.readback = raw;
    }

    /// Whether the readback confirms the write.
    pub fn matches(&self) -> (r: bool)
        ensures
            r == (self.written == self.readback),
    {
        self.written == self.readback
    }
}

/// Data quality metrics over a stream of raw readings.
#[derive(Debug, Clone, Copy, PartialEq, Eq, Structural)]
pub struct DataQuality {
    pub min: u16,
    pub max: u16,
    pub stuck_count: u16,
    pub last_value: u16,
}

impl DataQuality {
    pub fn new() -> (q: DataQuality)
        ensures
            q == (DataQuality { min: 0xFFFF, max: 0, stuck_count: 0, last_value: 0xFFFF }),
    {
        DataQuality { min: 0xFFFF, max: 0, stuck_count: 0, last_value: 0xFFFF }
    }

    /// Folds one reading in: tracks the minimum, the maximum, and how many
    /// consecutive readings have been stuck at the same value.
    pub fn update(&mut self, value: u16)
        requires
            old(self).stuck_count < u16::MAX,
        ensures
            final(self).min == if value < old(self).min { value } else { old(self).min },
            final(self).max == if value > old(self).max { value } else { old(self).max },
            final(self).stuck_count == if value == old(self).last_value {
                (old(self).stuck_count + 1) as u16
            } else {
                0u16
            },
            final(self).last_value == value,
    {
        if value < self.min {
            self.min = value;
        }
        if value > self.max {
            self.max = value;
        }
        if value == self.last_value {
            self.stuck_count = self.stuck_count + 1;
        } else {
            self.stuck_count = 0;
        }
        self.last_value = value;
    }

    /// The observed spread, or zero before any reading arrived.
    pub fn range(&self) -> (r: u16)
        ensures
            r == if self.min <= self.max { self.max - self.min } else { 0int },
    {
        if self.min <= self.max {
            self.max - self.min
        } else {
            0
        }
    }
}

/// The system states the conversion workflow moves through.
#[derive(Debug, Clone, Copy, PartialEq, Eq, Structural)]
pub enum SystemState {
    Uninitialized,
    Initializing,
    ConfigWritten,
    ConfigVerified,
    Idle,
    ConversionInProgress,
    ResultReady,
    Error,
}

/// State machine tracking: the current state, how often it changed, and how
/// long it has been held.
#[derive(Debug, Clone, Copy, PartialEq, Eq, Structural)]
pub struct StateTracking {
    pub state: SystemState,
    pub state_changes: u32,
    pub time_in_state_ms: u32,
}

impl StateTracking {
    pub fn new() -> (t: StateTracking)
        ensures
            t == (StateTracking {
                state: SystemState::Uninitialized,
                state_changes: 0,
                time_in_state_ms: 0,
            }),
    {
        StateTracking { state: SystemState::Uninitialized, state_changes: 0, time_in_state_ms: 0 }
    }

    /// Moves to `new_state`, counting the change and restarting the clock.
    pub fn transition(&mut self, new_state: SystemState)
        requires
            old(self).state_changes < u32::MAX,
        ensures
            *final(self) == (StateTracking {
                state: new_state,
                state_changes: (old(self).state_changes + 1) as u32,
                time_in_state_ms: 0,
            }),
    {
        self.state = new_state;
        self.state_changes = self.state_changes + 1;
        self.time_in_state_ms = 0;
    }

    /// Accumulates time spent in the current state.
    pub fn update_time(&mut self, delta_ms: u32)
        requires
            old(self).time_in_state_ms + delta_ms <= u32::MAX,
        ensures
            *final(self) == (StateTracking {
                time_in_state_ms: (old(self).time_in_state_ms + delta_ms) as u32,
                ..*old(self)
            }),
    {
        self.time_in_state_ms = self.time_in_state_ms + delta_ms;
    }
}

} // verus!
