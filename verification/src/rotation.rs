//! Rotation angle estimation from accelerometer data: an integer-only
//! quadrant-based approximation of the arctangent.

use vstd::prelude::*;

verus! {

/// The quadrant approximation: within each quadrant the smaller of the two
/// magnitudes, scaled by 45 degrees, interpolates toward the diagonal.
pub open spec fn spec_rotation_angle(x: int, y: int) -> int {
    let abs_x = if x >= 0 { x } else { -x };
    let abs_y = if y >= 0 { y } else { -y };
    let angle = if abs_x > abs_y {
        let ratio = (abs_y * 45) / (if abs_x >= 1 { abs_x } else { 1 });
        if x >= 0 {
            if y >= 0 { ratio } else { 360 - ratio }
        } else {
            if y >= 0 { 180 - ratio } else { 180 + ratio }
        }
    } else {
        let ratio = (abs_x * 45) / (if abs_y >= 1 { abs_y } else { 1 });
        if y >= 0 {
            if x >= 0 { 90 - ratio } else { 90 + ratio }
        } else {
            if x >= 0 { 270 + ratio } else { 270 - ratio }
        }
    };
    if angle < 0 { 0 } else if angle > 359 { 359 } else { angle }
}

/// Calculate the rotation angle, in degrees, from X and Y accelerometer
/// values. The result always lies below 360.
pub fn calculate_rotation_angle(accel_x: i16, accel_y: i16) -> (angle: u32)
    ensures
        angle == spec_rotation_angle(accel_x as int, accel_y as int),
        angle < 360,
{
    let x = accel_x as i32;
    let y = accel_y as i32;

    let abs_x = if x >= 0 { x } else { -x };
    let abs_y = if y >= 0 { y } else { -y };

    let angle: i32 = if abs_x > abs_y {
        let div = if abs_x >= 1 { abs_x } else { 1 };
        let ratio = (abs_y * 45) / div;
        if x >= 0 {
            if y >= 0 { ratio } else { 360 - ratio }
        } else {
            if y >= 0 { 180 - ratio } else { 180 + ratio }
        }
    } else {
        let div = if abs_y >= 1 { abs_y } else { 1 };
        let ratio = (abs_x * 45) / div;
        if y >= 0 {
            if x >= 0 { 90 - ratio } else { 90 + ratio }
        } else {
            if x >= 0 { 270 + ratio } else { 270 - ratio }
        }
    };

    let clamped = if angle < 0 { 0 } else if angle > 359 { 359 } else { angle };
    clamped as u32
}

} // verus!
