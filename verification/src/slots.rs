//! Typed slot registry: named, typed addresses of firmware-internal
//! variables, each read re-validated against the memory window before any
//! byte is decoded. A slot's address may be redirected externally at any
//! time, so no validation result is ever cached.

use vstd::prelude::*;
use crate::validator::{MemoryWindow, SlotError, spec_validate};

verus! {

/// Supported variable types for streaming.
#[derive(Debug, Clone, Copy, PartialEq, Eq, Structural)]
pub enum VarType {
    I32,
    U32,
    F32,
    I16,
    U16,
    I8,
    U8,
}

/// Element size in bytes of a `VarType`.
pub open spec fn spec_size(t: VarType) -> int {
    match t {
        VarType::I32 | VarType::U32 | VarType::F32 => 4,
        VarType::I16 | VarType::U16 => 2,
        VarType::I8 | VarType::U8 => 1,
    }
}

impl VarType {
    /// Returns the required alignment for this type.
    pub fn alignment(&self) -> (a: usize)
        ensures
            a == spec_size(*self),
            a == 1 || a == 2 || a == 4,
    {
        match self {
            VarType::I32 | VarType::U32 | VarType::F32 => 4,
            VarType::I16 | VarType::U16 => 2,
            VarType::I8 | VarType::U8 => 1,
        }
    }

    /// Returns the size of this type in bytes.
    pub fn size(&self) -> (s: usize)
        ensures
            s == spec_size(*self),
    {
        match self {
            VarType::I32 | VarType::U32 | VarType::F32 => 4,
            VarType::I16 | VarType::U16 => 2,
            VarType::I8 | VarType::U8 => 1,
        }
    }
}

/// A value read from a slot, tagged with its type. A four-byte floating
/// point value is carried as its raw bit pattern, which is all the engine
/// ever transports.
#[derive(Debug, Clone, Copy, PartialEq, Eq, Structural)]
pub enum SlotValue {
    I32(i32),
    U32(u32),
    F32(u32),
    I16(i16),
    U16(u16),
    I8(i8),
    U8(u8),
}

/// The unsigned integer held little-endian in `bytes`.
pub open spec fn le_value(bytes: Seq<u8>) -> int
    decreases bytes.len(),
{
    if bytes.len() == 0 {
        0
    } else {
        bytes[0] + 256 * le_value(bytes.drop_first())
    }
}

/// What a slot read decodes from the `n = spec_size(t)` bytes at the slot's
/// address: the little-endian value reinterpreted per the type tag.
pub open spec fn spec_decode(t: VarType, bytes: Seq<u8>) -> SlotValue {
    match t {
        VarType::U8 => SlotValue::U8(le_value(bytes) as u8),
        VarType::I8 => SlotValue::I8(le_value(bytes) as u8 as i8),
        VarType::U16 => SlotValue::U16(le_value(bytes) as u16),
        VarType::I16 => SlotValue::I16(le_value(bytes) as u16 as i16),
        VarType::U32 => SlotValue::U32(le_value(bytes) as u32),
        VarType::I32 => SlotValue::I32(le_value(bytes) as u32 as i32),
        VarType::F32 => SlotValue::F32(le_value(bytes) as u32),
    }
}

/// A slot that points to a variable to be streamed.
#[derive(Debug, Clone, Copy)]
pub struct StreamSlot {
    /// Address of the variable.
    pub addr: usize,
    /// Type of the variable.
    pub type_id: VarType,
    /// Slot name for diagnostics.
    pub name: &'static str,
}

impl StreamSlot {
    /// Creates a new stream slot pointing to a typed variable.
    pub fn new(addr: usize, type_id: VarType, name: &'static str) -> (s: StreamSlot)
        ensures
            s.addr == addr,
            s.type_id == type_id,
            s.name == name,
    {
        StreamSlot { addr, type_id, name }
    }

    /// Reads the value from this slot with full safety checks: the address is
    /// re-validated against the window on every call, and bytes are decoded
    /// only when validation succeeds. `mem` holds the bytes the window spans.
    pub fn read_safe(&self, window: &MemoryWindow, mem: &[u8]) -> (r: Result<SlotValue, SlotError>)
        requires
            window.wf(),
            mem@.len() == window.spec_len(),
        ensures
            r == spec_slot_read(*self, *window, mem@),
    {
        let size = self.type_id.size();
        let alignment = self.type_id.alignment();
        match window.validate(self.addr, size, alignment) {
            Err(e) => Err(e),
            Ok(()) => {
                let bytes = window.read_bytes(mem, self.addr, size);
                Ok(decode_value(self.type_id, &bytes))
            },
        }
    }
}

/// The result of reading one slot against the given memory.
pub open spec fn spec_slot_read(s: StreamSlot, win: MemoryWindow, mem: Seq<u8>) -> Result<SlotValue, SlotError> {
    match spec_validate(
        win.start as int,
        win.end as int,
        s.addr as int,
        spec_size(s.type_id),
        spec_size(s.type_id),
    ) {
        Err(e) => Err(e),
        Ok(_) => Ok(spec_decode(
            s.type_id,
            mem.subrange(s.addr - win.start, s.addr - win.start + spec_size(s.type_id)),
        )),
    }
}

/// The typed slot registry: a fixed list of named, typed addresses, created
/// once and living for the process lifetime. Only a slot's target address
/// ever changes, and from outside, so nothing about a slot is trusted across
/// reads.
pub struct SlotRegistry {
    slots: Vec<StreamSlot>,
}

impl SlotRegistry {
    /// The slots, in declaration order.
    pub closed spec fn view(&self) -> Seq<StreamSlot> {
        self.slots@
    }

    /// An empty registry.
    pub fn new() -> (r: SlotRegistry)
        ensures
            r@ == Seq::<StreamSlot>::empty(),
    {
        SlotRegistry { slots: Vec::new() }
    }

    /// Declares one more slot.
    pub fn declare(&mut self, slot: StreamSlot)
        ensures
            final(self)@ == old(self)@.push(slot),
    {
        self.slots.push(slot);
    }

    /// Number of slots declared.
    pub fn len(&self) -> (n: usize)
        ensures
            n == self@.len(),
    {
        self.slots.len()
    }

    /// Redirects a slot to a new target address; the next read re-validates.
    pub fn redirect(&mut self, i: usize, addr: usize)
        requires
            i < old(self)@.len(),
        ensures
            final(self)@ == old(self)@.update(i as int, StreamSlot { addr, ..old(self)@[i as int] }),
    {
        let slot = StreamSlot { addr, ..self.slots[i] };
        self.slots.set(i, slot);
    }

    /// Reads every slot in declaration order, re-validating each against the
    /// window: one tagged value or one error per slot, never a read the
    /// validator rejected.
    pub fn read_all(&self, window: &MemoryWindow, mem: &[u8]) -> (values: Vec<Result<SlotValue, SlotError>>)
        requires
            window.wf(),
            mem@.len() == window.spec_len(),
        ensures
            values@.len() == self@.len(),
            forall|k: int| 0 <= k < self@.len()
                ==> values@[k] == spec_slot_read(self@[k], *window, mem@),
    {
        let mut values: Vec<Result<SlotValue, SlotError>> = Vec::new();
        let mut i: usize = 0;
        while i < self.slots.len()
            invariant
                i <= self@.len(),
                window.wf(),
                mem@.len() == window.spec_len(),
                values@.len() == i,
                forall|k: int| 0 <= k < i ==> values@[k] == spec_slot_read(self@[k], *window, mem@),
            decreases self@.len() - i,
        {
            values.push(self.slots[i].read_safe(window, mem));
            i = i + 1;
        }
        values
    }
}

/// Decodes `bytes` (little-endian, length matching the tag) per `t`.
pub fn decode_value(t: VarType, bytes: &Vec<u8>) -> (v: SlotValue)
    requires
        bytes@.len() == spec_size(t),
    ensures
        v == spec_decode(t, bytes@),
{
    proof {
        reveal_le_bytes(bytes@);
    }
    match t {
        VarType::U8 => SlotValue::U8(bytes[0]),
        VarType::I8 => SlotValue::I8(bytes[0] as i8),
        VarType::U16 => SlotValue::U16(le16(bytes[0], bytes[1])),
        VarType::I16 => SlotValue::I16(le16(bytes[0], bytes[1]) as i16),
        VarType::U32 => SlotValue::U32(le32(bytes[0], bytes[1], bytes[2], bytes[3])),
        VarType::I32 => SlotValue::I32(le32(bytes[0], bytes[1], bytes[2], bytes[3]) as i32),
        VarType::F32 => SlotValue::F32(le32(bytes[0], bytes[1], bytes[2], bytes[3])),
    }
}

/// Unfolds `le_value` on sequences of length up to four.
proof fn reveal_le_bytes(bytes: Seq<u8>)
    ensures
        bytes.len() == 1 ==> le_value(bytes) == bytes[0],
        bytes.len() == 2 ==> le_value(bytes) == bytes[0] + 256 * bytes[1],
        bytes.len() == 4 ==> le_value(bytes)
            == bytes[0] + 256 * bytes[1] + 65536 * bytes[2] + 16777216 * bytes[3],
{
    if bytes.len() >= 1 {
        let b1 = bytes.drop_first();
        assert(le_value(bytes) == bytes[0] + 256 * le_value(b1));
        if b1.len() == 0 {
            assert(le_value(b1) == 0);
        } else {
            let b2 = b1.drop_first();
            assert(le_value(b1) == b1[0] + 256 * le_value(b2));
            if b2.len() == 0 {
                assert(le_value(b2) == 0);
            } else {
                let b3 = b2.drop_first();
                assert(le_value(b2) == b2[0] + 256 * le_value(b3));
                if b3.len() == 0 {
                    assert(le_value(b3) == 0);
                } else {
                    let b4 = b3.drop_first();
                    assert(le_value(b3) == b3[0] + 256 * le_value(b4));
                    if b4.len() == 0 {
                        assert(le_value(b4) == 0);
                    }
                }
            }
        }
    }
}

fn le16(b0: u8, b1: u8) -> (v: u16)
    ensures
        v == b0 + 256 * b1,
{
    b0 as u16 + 256 * (b1 as u16)
}

fn le32(b0: u8, b1: u8, b2: u8, b3: u8) -> (v: u32)
    ensures
        v == b0 + 256 * b1 + 65536 * b2 + 16777216 * b3,
{
    b0 as u32 + 256 * (b1 as u32) + 65536 * (b2 as u32) + 16777216 * (b3 as u32)
}

} // verus!
