use telemetry_engine::validator::{MemoryWindow, SlotError, WINDOW_END, WINDOW_START};

fn sram() -> MemoryWindow {
    MemoryWindow::new(WINDOW_START, WINDOW_END)
}

#[test]
fn validate_start_of_window() {
    assert_eq!(sram().validate(0x40800000, 4, 4), Ok(()));
}

#[test]
fn validate_misaligned_word() {
    assert_eq!(
        sram().validate(0x40800001, 4, 4),
        Err(SlotError::Misaligned { addr: 0x40800001, required_alignment: 4 })
    );
}

#[test]
fn validate_tail_exceeds_window() {
    // The tail of the read crosses the end of the window; the reported
    // address is the first byte past the read.
    assert_eq!(
        sram().validate(0x4087FFFE, 4, 2),
        Err(SlotError::OutOfBounds { addr: 0x4087FFFE + 4 })
    );
}

#[test]
fn validate_in_bounds_aligned_succeeds() {
    let w = sram();
    assert_eq!(w.validate(0x40800000, 1, 1), Ok(()));
    assert_eq!(w.validate(0x40800002, 2, 2), Ok(()));
    assert_eq!(w.validate(0x40870000, 64, 1), Ok(()));
    assert_eq!(w.validate(0x4087FFFC, 4, 4), Ok(()));
    assert_eq!(w.validate(0x4087FFFF, 1, 1), Ok(()));
}

#[test]
fn validate_below_window() {
    assert_eq!(
        sram().validate(0x407FFFFF, 1, 1),
        Err(SlotError::OutOfBounds { addr: 0x407FFFFF })
    );
}

#[test]
fn validate_at_window_end() {
    assert_eq!(
        sram().validate(0x40880000, 1, 1),
        Err(SlotError::OutOfBounds { addr: 0x40880000 })
    );
}

#[test]
fn validate_bounds_win_over_alignment() {
    // An address both out of range and misaligned reports the bounds error.
    assert_eq!(
        sram().validate(0x40880001, 4, 4),
        Err(SlotError::OutOfBounds { addr: 0x40880001 })
    );
}

#[test]
fn validate_misaligned_halfword() {
    assert_eq!(
        sram().validate(0x40800003, 2, 2),
        Err(SlotError::Misaligned { addr: 0x40800003, required_alignment: 2 })
    );
}

#[test]
fn validate_top_of_address_space_does_not_wrap() {
    // An address near the top of the integer range must not wrap and
    // falsely pass.
    assert!(matches!(
        sram().validate(usize::MAX - 2, 8, 1),
        Err(SlotError::OutOfBounds { .. })
    ));
}

#[test]
fn read_bytes_returns_window_slice() {
    let w = MemoryWindow::new(0x100, 0x110);
    let mem: Vec<u8> = (0..16).collect();
    assert_eq!(w.validate(0x104, 4, 1), Ok(()));
    let bytes = w.read_bytes(&mem, 0x104, 4);
    assert_eq!(bytes, vec![4, 5, 6, 7]);
}
