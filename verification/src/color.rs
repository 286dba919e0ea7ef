//! HSV to RGB color conversion: the standard sector-based conversion in
//! integer-only arithmetic.

use vstd::prelude::*;

verus! {

/// HSV color representation.
#[derive(Debug, Clone, Copy, PartialEq, Eq, Structural)]
pub struct HsvColor {
    /// 0 to 359 degrees.
    pub hue: u16,
    /// 0 to 100 percent.
    pub saturation: u8,
    /// 0 to 100 percent (brightness).
    pub value: u8,
}

impl HsvColor {
    /// Create a new HSV color with automatic clamping: the hue wraps at 360
    /// degrees, saturation and value clamp to 100 percent.
    pub fn new(hue: u16, saturation: u8, value: u8) -> (c: HsvColor)
        ensures
            c.hue == hue % 360,
            c.saturation == if saturation <= 100 { saturation } else { 100u8 },
            c.value == if value <= 100 { value } else { 100u8 },
    {
        HsvColor {
            hue: hue % 360,
            saturation: if saturation <= 100 { saturation } else { 100 },
            value: if value <= 100 { value } else { 100 },
        }
    }
}

/// The sector-based conversion: hue picks one of six 60-degree sectors, and
/// the channel levels come from the saturation and value percentages.
pub open spec fn spec_hsv_to_rgb(hue: int, s: int, v: int) -> (u8, u8, u8) {
    if s == 0 {
        let g = (v * 255 / 100) as u8;
        (g, g, g)
    } else {
        let h = hue % 360;
        let sector = h / 60;
        let rem = h % 60;
        let p = (v * (100 - s)) / 100;
        let q = (v * (100 - (s * rem) / 60)) / 100;
        let t = (v * (100 - (s * (60 - rem)) / 60)) / 100;
        let v_scaled = (v * 255 / 100) as u8;
        let p_scaled = (p * 255 / 100) as u8;
        let q_scaled = (q * 255 / 100) as u8;
        let t_scaled = (t * 255 / 100) as u8;
        if sector == 0 {
            (v_scaled, t_scaled, p_scaled)
        } else if sector == 1 {
            (q_scaled, v_scaled, p_scaled)
        } else if sector == 2 {
            (p_scaled, v_scaled, t_scaled)
        } else if sector == 3 {
            (p_scaled, q_scaled, v_scaled)
        } else if sector == 4 {
            (t_scaled, p_scaled, v_scaled)
        } else {
            (v_scaled, p_scaled, q_scaled)
        }
    }
}

/// Convert an HSV color to RGB (0 to 255 per channel), in integer-only math.
/// Saturation and value must be percentages, as `HsvColor::new` guarantees.
pub fn hsv_to_rgb(hsv: HsvColor) -> (rgb: (u8, u8, u8))
    requires
        hsv.saturation <= 100,
        hsv.value <= 100,
    ensures
        rgb == spec_hsv_to_rgb(hsv.hue as int, hsv.saturation as int, hsv.value as int),
{
    if hsv.saturation == 0 {
        let g = (hsv.value as u32 * 255 / 100) as u8;
        return (g, g, g);
    }

    let h = hsv.hue % 360;
    let s = hsv.saturation as u32;
    let v = hsv.value as u32;
    assert(s <= 100 && v <= 100);

    let sector = h / 60;
    let rem = (h % 60) as u32;
    assert(rem < 60);

    proof {
        assert(v * (100 - s) <= 10000) by (nonlinear_arith)
            requires v <= 100, s <= 100
        ;
        assert(s * rem <= 5900 && s * (60 - rem) <= 6000) by (nonlinear_arith)
            requires s <= 100, rem < 60
        ;
        assert((s * rem) / 60 <= 99 && (s * (60 - rem)) / 60 <= 100) by (nonlinear_arith)
            requires 0 <= s * rem <= 5900, 0 <= s * (60 - rem) <= 6000
        ;
        assert(v * (100 - (s * rem) / 60) <= 10000) by (nonlinear_arith)
            requires v <= 100, 0 <= (s * rem) / 60 <= 99
        ;
        assert(v * (100 - (s * (60 - rem)) / 60) <= 10000) by (nonlinear_arith)
            requires v <= 100, 0 <= (s * (60 - rem)) / 60 <= 100
        ;
    }
    let p = (v * (100 - s)) / 100;
    let q = (v * (100 - (s * rem) / 60)) / 100;
    let t = (v * (100 - (s * (60 - rem)) / 60)) / 100;

    let v_scaled = (v * 255 / 100) as u8;
    let p_scaled = (p * 255 / 100) as u8;
    let q_scaled = (q * 255 / 100) as u8;
    let t_scaled = (t * 255 / 100) as u8;

    match sector {
        0 => (v_scaled, t_scaled, p_scaled),
        1 => (q_scaled, v_scaled, p_scaled),
        2 => (p_scaled, v_scaled, t_scaled),
        3 => (p_scaled, q_scaled, v_scaled),
        4 => (t_scaled, p_scaled, v_scaled),
        _ => (v_scaled, p_scaled, q_scaled),
    }
}

} // verus!
