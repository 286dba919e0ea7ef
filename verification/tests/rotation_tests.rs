use telemetry_engine::rotation::calculate_rotation_angle;

#[test]
fn test_zero_degrees() {
    // Pointing right (positive X)
    let angle = calculate_rotation_angle(1000, 0);
    assert!(angle < 5, "Should be close to 0°, got {}°", angle);
}

#[test]
fn test_90_degrees() {
    // Pointing up (positive Y)
    let angle = calculate_rotation_angle(0, 1000);
    assert!(
        (85..=95).contains(&angle),
        "Should be close to 90°, got {}°",
        angle
    );
}

#[test]
fn test_180_degrees() {
    // Pointing left (negative X)
    let angle = calculate_rotation_angle(-1000, 0);
    assert!(
        (175..=185).contains(&angle),
        "Should be close to 180°, got {}°",
        angle
    );
}

#[test]
fn test_270_degrees() {
    // Pointing down (negative Y)
    let angle = calculate_rotation_angle(0, -1000);
    assert!(
        (265..=275).contains(&angle),
        "Should be close to 270°, got {}°",
        angle
    );
}

#[test]
fn test_quadrant_1() {
    // Positive X, positive Y (0-90°)
    let angle = calculate_rotation_angle(1000, 1000);
    assert!(
        (40..=50).contains(&angle),
        "45° should be in range 40-50°, got {}°",
        angle
    );
}

#[test]
fn test_quadrant_2() {
    // Negative X, positive Y (90-180°)
    let angle = calculate_rotation_angle(-1000, 1000);
    assert!(
        (130..=140).contains(&angle),
        "135° should be in range 130-140°, got {}°",
        angle
    );
}

#[test]
fn test_quadrant_3() {
    // Negative X, negative Y (180-270°)
    let angle = calculate_rotation_angle(-1000, -1000);
    assert!(
        (220..=230).contains(&angle),
        "225° should be in range 220-230°, got {}°",
        angle
    );
}

#[test]
fn test_quadrant_4() {
    // Positive X, negative Y (270-360°)
    let angle = calculate_rotation_angle(1000, -1000);
    assert!(
        (310..=320).contains(&angle),
        "315° should be in range 310-320°, got {}°",
        angle
    );
}

#[test]
fn test_small_values() {
    // Should handle small accelerometer values
    let angle = calculate_rotation_angle(10, 5);
    assert!(angle < 360, "Angle should be valid");
}

#[test]
fn test_large_values() {
    // Should handle large accelerometer values (real sensor range: ±16384)
    let angle = calculate_rotation_angle(16000, 8000);
    assert!(angle < 360, "Angle should be valid");
}

#[test]
fn test_zero_input() {
    // Edge case: both values zero
    let angle = calculate_rotation_angle(0, 0);
    assert!(angle < 360, "Should handle zero input gracefully");
}

#[test]
fn test_angle_range() {
    // All angles should be 0-359
    for x in [-16000, -8000, 0, 8000, 16000].iter() {
        for y in [-16000, -8000, 0, 8000, 16000].iter() {
            let angle = calculate_rotation_angle(*x, *y);
            assert!(
                angle < 360,
                "Angle should be 0-359, got {} for ({}, {})",
                angle,
                x,
                y
            );
        }
    }
}
