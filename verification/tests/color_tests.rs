use telemetry_engine::color::{hsv_to_rgb, HsvColor};

#[test]
fn test_pure_red() {
    let hsv = HsvColor::new(0, 100, 100);
    let rgb = hsv_to_rgb(hsv);
    assert_eq!(rgb, (255, 0, 0), "Pure red should be RGB(255, 0, 0)");
}

#[test]
fn test_pure_green() {
    let hsv = HsvColor::new(120, 100, 100);
    let rgb = hsv_to_rgb(hsv);
    assert_eq!(rgb, (0, 255, 0), "Pure green should be RGB(0, 255, 0)");
}

#[test]
fn test_pure_blue() {
    let hsv = HsvColor::new(240, 100, 100);
    let rgb = hsv_to_rgb(hsv);
    assert_eq!(rgb, (0, 0, 255), "Pure blue should be RGB(0, 0, 255)");
}

#[test]
fn test_cyan() {
    let hsv = HsvColor::new(180, 100, 100);
    let rgb = hsv_to_rgb(hsv);
    assert_eq!(rgb, (0, 255, 255), "Cyan should be RGB(0, 255, 255)");
}

#[test]
fn test_magenta() {
    let hsv = HsvColor::new(300, 100, 100);
    let rgb = hsv_to_rgb(hsv);
    assert_eq!(rgb, (255, 0, 255), "Magenta should be RGB(255, 0, 255)");
}

#[test]
fn test_yellow() {
    let hsv = HsvColor::new(60, 100, 100);
    let rgb = hsv_to_rgb(hsv);
    assert_eq!(rgb, (255, 255, 0), "Yellow should be RGB(255, 255, 0)");
}

#[test]
fn test_half_brightness_red() {
    let hsv = HsvColor::new(0, 100, 50);
    let rgb = hsv_to_rgb(hsv);
    assert_eq!(rgb, (127, 0, 0), "Half brightness red should be RGB(127, 0, 0)");
}

#[test]
fn test_white() {
    let hsv = HsvColor::new(0, 0, 100);
    let rgb = hsv_to_rgb(hsv);
    assert_eq!(rgb, (255, 255, 255), "White (no saturation) should be RGB(255, 255, 255)");
}

#[test]
fn test_black() {
    let hsv = HsvColor::new(0, 0, 0);
    let rgb = hsv_to_rgb(hsv);
    assert_eq!(rgb, (0, 0, 0), "Black (no value) should be RGB(0, 0, 0)");
}

#[test]
fn test_gray() {
    let hsv = HsvColor::new(0, 0, 50);
    let rgb = hsv_to_rgb(hsv);
    assert_eq!(rgb, (127, 127, 127), "50% gray should be RGB(127, 127, 127)");
}

#[test]
fn test_hue_wrapping() {
    let hsv1 = HsvColor::new(0, 100, 100);
    let hsv2 = HsvColor::new(360, 100, 100);
    assert_eq!(
        hsv_to_rgb(hsv1),
        hsv_to_rgb(hsv2),
        "Hue should wrap at 360 degrees"
    );
}

#[test]
fn test_saturation_clamping() {
    let hsv = HsvColor::new(0, 150, 100); // Saturation > 100
    assert_eq!(hsv.saturation, 100, "Saturation should be clamped to 100");
}

#[test]
fn color_test_pure_red() {
    let hsv = HsvColor::new(0, 100, 100);
    let rgb = hsv_to_rgb(hsv);
    assert_eq!(rgb, (255, 0, 0));
}

#[test]
fn color_test_pure_green() {
    let hsv = HsvColor::new(120, 100, 100);
    let rgb = hsv_to_rgb(hsv);
    assert_eq!(rgb, (0, 255, 0));
}

#[test]
fn color_test_pure_blue() {
    let hsv = HsvColor::new(240, 100, 100);
    let rgb = hsv_to_rgb(hsv);
    assert_eq!(rgb, (0, 0, 255));
}

#[test]
fn color_test_half_brightness_red() {
    let hsv = HsvColor::new(0, 100, 50);
    let rgb = hsv_to_rgb(hsv);
    assert_eq!(rgb, (127, 0, 0));
}

#[test]
fn color_test_yellow() {
    let hsv = HsvColor::new(60, 100, 100);
    let rgb = hsv_to_rgb(hsv);
    assert_eq!(rgb, (255, 255, 0));
}

#[test]
fn color_test_white() {
    let hsv = HsvColor::new(0, 0, 100);
    let rgb = hsv_to_rgb(hsv);
    assert_eq!(rgb, (255, 255, 255));
}

#[test]
fn color_test_black() {
    let hsv = HsvColor::new(0, 0, 0);
    let rgb = hsv_to_rgb(hsv);
    assert_eq!(rgb, (0, 0, 0));
}
