use telemetry_engine::slots::{SlotRegistry, SlotValue, StreamSlot, VarType};
use telemetry_engine::validator::{MemoryWindow, SlotError};

fn window() -> MemoryWindow {
    MemoryWindow::new(0x100, 0x110)
}

fn mem() -> Vec<u8> {
    // Bytes 0x10..0x20 at addresses 0x100..0x110.
    (0x10..0x20).collect()
}

#[test]
fn var_type_sizes_and_alignments() {
    assert_eq!(VarType::I32.size(), 4);
    assert_eq!(VarType::U32.size(), 4);
    assert_eq!(VarType::F32.size(), 4);
    assert_eq!(VarType::I16.size(), 2);
    assert_eq!(VarType::U16.size(), 2);
    assert_eq!(VarType::I8.size(), 1);
    assert_eq!(VarType::U8.size(), 1);
    assert_eq!(VarType::I32.alignment(), 4);
    assert_eq!(VarType::U16.alignment(), 2);
    assert_eq!(VarType::U8.alignment(), 1);
}

#[test]
fn read_safe_decodes_little_endian() {
    let w = window();
    let m = mem();
    let s = StreamSlot::new(0x104, VarType::U32, "counter");
    assert_eq!(s.name, "counter");
    // Bytes 14 15 16 17, little-endian.
    assert_eq!(s.read_safe(&w, &m), Ok(SlotValue::U32(0x17161514)));

    let s = StreamSlot::new(0x102, VarType::U16, "flags");
    assert_eq!(s.read_safe(&w, &m), Ok(SlotValue::U16(0x1312)));

    let s = StreamSlot::new(0x10F, VarType::U8, "byte");
    assert_eq!(s.read_safe(&w, &m), Ok(SlotValue::U8(0x1F)));
}

#[test]
fn read_safe_decodes_signed_and_float_bits() {
    let w = window();
    let mut m = mem();
    m[0] = 0xFE;
    m[1] = 0xFF;
    let s = StreamSlot::new(0x100, VarType::I16, "delta");
    assert_eq!(s.read_safe(&w, &m), Ok(SlotValue::I16(-2)));

    let s = StreamSlot::new(0x100, VarType::I8, "small");
    assert_eq!(s.read_safe(&w, &m), Ok(SlotValue::I8(-2)));

    // A four-byte float travels as its raw bit pattern.
    m[0] = 0x00;
    m[1] = 0x00;
    m[2] = 0x80;
    m[3] = 0x3F;
    let s = StreamSlot::new(0x100, VarType::F32, "gain");
    assert_eq!(s.read_safe(&w, &m), Ok(SlotValue::F32(0x3F800000)));
    assert_eq!(f32::from_bits(0x3F800000), 1.0f32);
}

#[test]
fn read_safe_rejects_misaligned() {
    let w = window();
    let m = mem();
    let s = StreamSlot::new(0x102, VarType::U32, "bad");
    assert_eq!(
        s.read_safe(&w, &m),
        Err(SlotError::Misaligned { addr: 0x102, required_alignment: 4 })
    );
}

#[test]
fn read_safe_rejects_out_of_bounds() {
    let w = window();
    let m = mem();
    let s = StreamSlot::new(0x0FC, VarType::U32, "below");
    assert_eq!(s.read_safe(&w, &m), Err(SlotError::OutOfBounds { addr: 0x0FC }));

    let s = StreamSlot::new(0x110, VarType::U8, "past");
    assert_eq!(s.read_safe(&w, &m), Err(SlotError::OutOfBounds { addr: 0x110 }));

    // The tail crosses the window end; the reported address is one past the
    // attempted read.
    let s = StreamSlot::new(0x10F, VarType::U16, "tail");
    assert_eq!(s.read_safe(&w, &m), Err(SlotError::OutOfBounds { addr: 0x111 }));
    let s = StreamSlot::new(0x10E, VarType::U32, "tail32");
    assert_eq!(s.read_safe(&w, &m), Err(SlotError::OutOfBounds { addr: 0x112 }));
}

#[test]
fn read_safe_revalidates_after_redirection() {
    let w = window();
    let m = mem();
    // A slot whose address is redirected is re-validated on the next read.
    let mut s = StreamSlot::new(0x104, VarType::U32, "target");
    assert!(s.read_safe(&w, &m).is_ok());
    s.addr = 0x0;
    assert_eq!(s.read_safe(&w, &m), Err(SlotError::OutOfBounds { addr: 0 }));
    s.addr = 0x108;
    assert_eq!(s.read_safe(&w, &m), Ok(SlotValue::U32(0x1B1A1918)));
}

#[test]
fn registry_reads_all_slots_in_order() {
    let w = window();
    let m = mem();
    let mut reg = SlotRegistry::new();
    reg.declare(StreamSlot::new(0x100, VarType::U8, "first"));
    reg.declare(StreamSlot::new(0x102, VarType::U16, "second"));
    reg.declare(StreamSlot::new(0x120, VarType::U8, "stray"));
    assert_eq!(reg.len(), 3);
    let values = reg.read_all(&w, &m);
    assert_eq!(values.len(), 3);
    assert_eq!(values[0], Ok(SlotValue::U8(0x10)));
    assert_eq!(values[1], Ok(SlotValue::U16(0x1312)));
    assert_eq!(values[2], Err(SlotError::OutOfBounds { addr: 0x120 }));
}

#[test]
fn registry_redirect_revalidates() {
    let w = window();
    let m = mem();
    let mut reg = SlotRegistry::new();
    reg.declare(StreamSlot::new(0x104, VarType::U32, "target"));
    assert_eq!(reg.read_all(&w, &m)[0], Ok(SlotValue::U32(0x17161514)));
    // An external tool rewrites the slot's pointer; the next read validates
    // the new address from scratch.
    reg.redirect(0, 0x103);
    assert_eq!(
        reg.read_all(&w, &m)[0],
        Err(SlotError::Misaligned { addr: 0x103, required_alignment: 4 })
    );
    reg.redirect(0, 0x108);
    assert_eq!(reg.read_all(&w, &m)[0], Ok(SlotValue::U32(0x1B1A1918)));
}
