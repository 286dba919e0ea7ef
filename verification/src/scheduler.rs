//! Cooperative scheduler state: virtual time and the per-task due decisions
//! of one tick. The delay and the task bodies live with the hardware glue;
//! the decisions are made here.

use vstd::prelude::*;

verus! {

/// Button task period: how often to check button state.
pub const BUTTON_PERIOD_MS: u64 = 10;

/// IMU task period.
pub const IMU_PERIOD_MS: u64 = 100;

/// LED task period.
pub const LED_PERIOD_MS: u64 = 50;

/// Scheduler base tick period.
pub const TICK_MS: u64 = 10;

/// Debounce delay after a button press.
pub const DEBOUNCE_MS: u32 = 200;

/// Which tasks one tick decided to run.
#[derive(Debug, Clone, Copy, PartialEq, Eq, Structural)]
pub struct TickDue {
    pub button: bool,
    pub imu: bool,
    pub led: bool,
}

/// Simple cooperative scheduler state for the button, IMU, and LED tasks.
#[derive(Debug, Clone, Copy, PartialEq, Eq, Structural)]
pub struct Scheduler {
    current_time_ms: u64,
    button_next_run_ms: u64,
    imu_next_run_ms: u64,
    led_next_run_ms: u64,
}

impl Scheduler {
    pub closed spec fn spec_time(&self) -> u64 {
        self.current_time_ms
    }

    pub closed spec fn spec_next(&self) -> (u64, u64, u64) {
        (self.button_next_run_ms, self.imu_next_run_ms, self.led_next_run_ms)
    }

    /// Create a new scheduler starting at time zero, with every task due.
    pub fn new() -> (s: Scheduler)
        ensures
            s.spec_time() == 0,
            s.spec_next() == (0u64, 0u64, 0u64),
    {
        Scheduler {
            current_time_ms: 0,
            button_next_run_ms: 0,
            imu_next_run_ms: 0,
            led_next_run_ms: 0,
        }
    }

    /// Get the current virtual time in milliseconds.
    pub fn current_time_ms(&self) -> (t: u64)
        ensures
            t == self.spec_time(),
    {
        self.current_time_ms
    }

    /// The decisions of one scheduler tick: time advances by `TICK_MS`, and
    /// each task runs exactly when its next-run time has arrived, which
    /// pushes that time one period past the current time.
    pub fn advance(&mut self) -> (due: TickDue)
        requires
            old(self).spec_time() + TICK_MS + IMU_PERIOD_MS <= u64::MAX,
        ensures
            final(self).spec_time() == old(self).spec_time() + TICK_MS,
            due.button == (final(self).spec_time() >= old(self).spec_next().0),
            due.imu == (final(self).spec_time() >= old(self).spec_next().1),
            due.led == (final(self).spec_time() >= old(self).spec_next().2),
            final(self).spec_next().0 == if due.button {
                (final(self).spec_time() + BUTTON_PERIOD_MS) as u64
            } else {
                old(self).spec_next().0
            },
            final(self).spec_next().1 == if due.imu {
                (final(self).spec_time() + IMU_PERIOD_MS) as u64
            } else {
                old(self).spec_next().1
            },
            final(self).spec_next().2 == if due.led {
                (final(self).spec_time() + LED_PERIOD_MS) as u64
            } else {
                old(self).spec_next().2
            },
    {
        self.current_time_ms = self.current_time_ms + TICK_MS;
        let mut due = TickDue { button: false, imu: false, led: false };
        if self.current_time_ms >= self.button_next_run_ms {
            due.button = true;
            self.button_next_run_ms = self.current_time_ms + BUTTON_PERIOD_MS;
        }
        if self.current_time_ms >= self.imu_next_run_ms {
            due.imu = true;
            self.imu_next_run_ms = self.current_time_ms + IMU_PERIOD_MS;
        }
        if self.current_time_ms >= self.led_next_run_ms {
            due.led = true;
            self.led_next_run_ms = self.current_time_ms + LED_PERIOD_MS;
        }
        due
    }
}

impl Default for Scheduler {
    /// A scheduler starting at time zero.
    fn default() -> (s: Scheduler)
        ensures
            s.spec_time() == 0,
            s.spec_next() == (0u64, 0u64, 0u64),
    {
        Scheduler::new()
    }
}

} // verus!
