//! Button edge detection and debouncing: the decision core of the button
//! task. The GPIO read and the action taken on a press live with the
//! hardware glue; each sampled level is handed in here.

use vstd::prelude::*;

verus! {

/// How many button-task calls the debounce period spans: the 200 ms debounce
/// delay divided by the 10 ms task period.
pub const DEBOUNCE_CALLS: u32 = 20;

/// Debounce state: the previous sampled level and the calls left in the
/// current debounce window.
#[derive(Debug, Clone, Copy, PartialEq, Eq, Structural)]
pub struct ButtonDebounce {
    pub was_pressed: bool,
    pub debounce_counter: u32,
}

impl ButtonDebounce {
    /// Fresh state: button released, no debounce pending.
    pub fn new() -> (b: ButtonDebounce)
        ensures
            b == (ButtonDebounce { was_pressed: false, debounce_counter: 0 }),
    {
        ButtonDebounce { was_pressed: false, debounce_counter: 0 }
    }

    /// Feeds one sampled level (`true` when pressed). A press event fires on
    /// the released-to-pressed edge, and never during the debounce window
    /// that a press opens; the window shortens by one call per sample.
    pub fn step(&mut self, pressed: bool) -> (fires: bool)
        ensures
            final(self).was_pressed == pressed,
            old(self).debounce_counter > 0 ==> !fires
                && final(self).debounce_counter == old(self).debounce_counter - 1,
            old(self).debounce_counter == 0 ==> {
                &&& fires == (pressed && !old(self).was_pressed)
                &&& final(self).debounce_counter == if fires { DEBOUNCE_CALLS } else { 0u32 }
            },
    {
        if self.debounce_counter > 0 {
            self.debounce_counter = self.debounce_counter - 1;
            self.was_pressed = pressed;
            return false;
        }
        let fires = pressed && !self.was_pressed;
        if fires {
            self.debounce_counter = DEBOUNCE_CALLS;
        }
        self.was_pressed = pressed;
        fires
    }
}

} // verus!
