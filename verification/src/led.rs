//! LED state shared between tasks: the on/off flag and the packed RGB color,
//! owned explicitly instead of living in ambient globals.

use vstd::prelude::*;

verus! {

pub const BUTTON_GPIO: u8 = 9;

pub const NEOPIXEL_GPIO: u8 = 8;

pub const RMT_CLOCK_MHZ: u32 = 80;

/// A color packed as `0x00RRGGBB`.
pub open spec fn pack_rgb(r: u8, g: u8, b: u8) -> u32 {
    (r * 0x10000 + g * 0x100 + b) as u32
}

/// The LED enable flag shared between the button task and the LED task.
#[derive(Debug, Clone, Copy, PartialEq, Eq, Structural)]
pub struct LedToggle {
    enabled: bool,
}

impl LedToggle {
    pub closed spec fn spec_enabled(&self) -> bool {
        self.enabled
    }

    /// A toggle starting out disabled.
    pub fn new() -> (t: LedToggle)
        ensures
            !t.spec_enabled(),
    {
        LedToggle { enabled: false }
    }

    /// Read the LED enabled state.
    pub fn is_led_enabled(&self) -> (r: bool)
        ensures
            r == self.spec_enabled(),
    {
        self.enabled
    }

    /// Set the LED enabled state.
    pub fn set_led_enabled(&mut self, enabled: bool)
        ensures
            final(self).spec_enabled() == enabled,
    {
        self.enabled = enabled;
    }

    /// Toggle the LED enabled state.
    pub fn toggle_led_enabled(&mut self)
        ensures
            final(self).spec_enabled() == !old(self).spec_enabled(),
    {
        self.enabled = !self.enabled;
    }
}

/// The LED color and on/off state, packed the way the display task reads it.
#[derive(Debug, Clone, Copy, PartialEq, Eq, Structural)]
pub struct LedState {
    color: u32,
    on: bool,
}

impl LedState {
    pub closed spec fn spec_color(&self) -> u32 {
        self.color
    }

    pub closed spec fn spec_on(&self) -> bool {
        self.on
    }

    /// An LED that starts out off, showing dimmed blue when turned on.
    pub fn new() -> (s: LedState)
        ensures
            s.spec_color() == pack_rgb(0, 0, 0x1E),
            !s.spec_on(),
    {
        LedState { color: 0x00_00_1E, on: false }
    }

    /// Get the current LED color as (R, G, B).
    pub fn get_led_color(&self) -> (rgb: (u8, u8, u8))
        ensures
            self.spec_color() % 0x1000000 == pack_rgb(rgb.0, rgb.1, rgb.2),
            rgb.0 == (self.spec_color() >> 16) & 0xFF,
            rgb.1 == (self.spec_color() >> 8) & 0xFF,
            rgb.2 == self.spec_color() & 0xFF,
    {
        let color = self.color;
        let r = ((color >> 16) & 0xFF) as u8;
        let g = ((color >> 8) & 0xFF) as u8;
        let b = (color & 0xFF) as u8;
        proof {
            assert(color % 0x1000000 == ((color >> 16) & 0xFF) * 0x10000
                + ((color >> 8) & 0xFF) * 0x100 + (color & 0xFF)
                && (color >> 16) & 0xFF < 256 && (color >> 8) & 0xFF < 256 && color & 0xFF < 256)
                by (bit_vector);
        }
        (r, g, b)
    }

    /// Set the LED color from (R, G, B).
    pub fn set_led_color(&mut self, r: u8, g: u8, b: u8)
        ensures
            final(self).spec_color() == pack_rgb(r, g, b),
            final(self).spec_on() == old(self).spec_on(),
    {
        let rr = r as u32;
        let gg = g as u32;
        let bb = b as u32;
        let packed = (rr << 16) | (gg << 8) | bb;
        proof {
            assert((rr << 16) | (gg << 8) | bb == rr * 0x10000 + gg * 0x100 + bb) by (bit_vector)
                requires rr < 256, gg < 256, bb < 256
            ;
        }
        self.color = packed;
    }

    /// Check whether the LED is on.
    pub fn is_led_on(&self) -> (r: bool)
        ensures
            r == self.spec_on(),
    {
        self.on
    }

    /// Set the LED on/off state.
    pub fn set_led_on(&mut self, on: bool)
        ensures
            final(self).spec_on() == on,
            final(self).spec_color() == old(self).spec_color(),
    {
        self.on = on;
    }
}

/// Setting a color and reading it back returns the same channels.
pub proof fn lemma_color_round_trip(r: u8, g: u8, b: u8)
    ensures
        (pack_rgb(r, g, b) >> 16) & 0xFF == r,
        (pack_rgb(r, g, b) >> 8) & 0xFF == g,
        pack_rgb(r, g, b) & 0xFF == b,
{
    let c = pack_rgb(r, g, b);
    assert(c == r * 0x10000 + g * 0x100 + b);
    assert((c >> 16) & 0xFF == r && (c >> 8) & 0xFF == g && c & 0xFF == b) by (bit_vector)
        requires c == r * 0x10000 + g * 0x100 + b, r < 256, g < 256, b < 256
    ;
}

} // verus!
