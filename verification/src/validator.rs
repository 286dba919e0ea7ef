//! Safety validator: decides whether a (address, size, alignment) request is
//! admissible against a configured valid-memory window, and provides the only
//! path from a validated request to actual bytes.

use vstd::prelude::*;

verus! {

/// Start of the valid RAM window on the target device (inclusive).
pub const WINDOW_START: usize = 0x40800000;

/// End of the valid RAM window on the target device (exclusive).
pub const WINDOW_END: usize = 0x40880000;

/// An error found while validating a memory access.
#[derive(Debug, Clone, Copy, PartialEq, Eq, Structural)]
pub enum SlotError {
    OutOfBounds { addr: usize },
    Misaligned { addr: usize, required_alignment: usize },
}

/// A contiguous valid-memory range `[start, end)`; every read is validated
/// against it before any byte is handed out.
#[derive(Debug, Clone, Copy, PartialEq, Eq, Structural)]
pub struct MemoryWindow {
    pub start: usize,
    pub end: usize,
}

/// An integer clipped to the values a `usize` can hold.
pub open spec fn sat_usize(x: int) -> usize {
    if x > usize::MAX { usize::MAX } else { x as usize }
}

/// What `validate` decides, stated over mathematical integers.
pub open spec fn spec_validate(
    start: int,
    end: int,
    addr: int,
    size: int,
    alignment: int,
) -> Result<(), SlotError> {
    if addr < start || addr >= end {
        Err(SlotError::OutOfBounds { addr: addr as usize })
    } else if addr + size > end {
        Err(SlotError::OutOfBounds { addr: sat_usize(addr + size) })
    } else if addr % alignment != 0 {
        Err(SlotError::Misaligned { addr: addr as usize, required_alignment: alignment as usize })
    } else {
        Ok(())
    }
}

/// Every aligned request that lies inside the window is admitted. The
/// address itself must lie inside the window: a zero-size request at the
/// very end of the window is out of bounds, since its address is.
pub proof fn lemma_validate_accepts_in_bounds(start: int, end: int, addr: int, size: int, alignment: int)
    requires
        start <= addr < end,
        addr + size <= end,
        addr % alignment == 0,
    ensures
        spec_validate(start, end, addr, size, alignment) is Ok,
{
}

/// Every request below the window start or running past the window end is
/// rejected as out of bounds, regardless of alignment.
pub proof fn lemma_validate_rejects_out_of_bounds(start: int, end: int, addr: int, size: int, alignment: int)
    requires
        addr < start || addr + size > end,
    ensures
        spec_validate(start, end, addr, size, alignment) matches Err(e) && e is OutOfBounds,
{
}

/// Every in-bounds but misaligned request is rejected as misaligned,
/// reporting the address and the required alignment.
pub proof fn lemma_validate_rejects_misaligned(start: int, end: int, addr: int, size: int, alignment: int)
    requires
        start <= addr < end,
        addr + size <= end,
        addr % alignment != 0,
    ensures
        spec_validate(start, end, addr, size, alignment)
            == Err::<(), SlotError>(SlotError::Misaligned {
                addr: addr as usize,
                required_alignment: alignment as usize,
            }),
{
}

/// The safety guarantee behind every read: an access the validator admits
/// lies entirely inside the window, so no byte outside it is ever touched.
pub proof fn lemma_validated_access_in_window(start: int, end: int, addr: int, size: int, alignment: int)
    requires
        spec_validate(start, end, addr, size, alignment) is Ok,
    ensures
        start <= addr,
        addr + size <= end,
        addr % alignment == 0,
{
}

impl MemoryWindow {
    pub open spec fn wf(self) -> bool {
        self.start <= self.end
    }

    /// Number of bytes the window spans.
    pub open spec fn spec_len(self) -> int {
        self.end - self.start
    }

    pub fn new(start: usize, end: usize) -> (w: MemoryWindow)
        requires
            start <= end,
        ensures
            w == (MemoryWindow { start, end }),
            w.wf(),
    {
        MemoryWindow { start, end }
    }

    /// The window of the target device's SRAM.
    pub fn device_sram() -> (w: MemoryWindow)
        ensures
            w == (MemoryWindow { start: WINDOW_START, end: WINDOW_END }),
            w.wf(),
    {
        MemoryWindow { start: WINDOW_START, end: WINDOW_END }
    }

    /// Decides admissibility of reading `size` bytes at `addr` with the given
    /// alignment. Bounds are checked before alignment, so an address that is
    /// both out of range and misaligned reports `OutOfBounds`. The tail check
    /// saturates rather than wraps, so an address near the top of the address
    /// space cannot falsely pass.
    pub fn validate(&self, addr: usize, size: usize, alignment: usize) -> (r: Result<(), SlotError>)
        requires
            self.wf(),
            alignment == 1 || alignment == 2 || alignment == 4,
        ensures
            r == spec_validate(self.start as int, self.end as int, addr as int, size as int, alignment as int),
            r is Ok <==> self.start <= addr && addr < self.end && addr + size <= self.end
                && addr % alignment == 0,
            (addr < self.start || addr + size > self.end) ==> (r matches Err(e) && e is OutOfBounds),
            (self.start <= addr && addr < self.end && addr + size <= self.end && addr % alignment != 0)
                ==> r == Err::<(), SlotError>(SlotError::Misaligned { addr, required_alignment: alignment }),
    {
        if addr < self.start || addr >= self.end {
            return Err(SlotError::OutOfBounds { addr });
        }
        match addr.checked_add(size) {
            None => {
                return Err(SlotError::OutOfBounds { addr: usize::MAX });
            },
            Some(tail) => {
                if tail > self.end {
                    return Err(SlotError::OutOfBounds { addr: tail });
                }
            },
        }
        if addr % alignment != 0 {
            return Err(SlotError::Misaligned { addr, required_alignment: alignment });
        }
        Ok(())
    }

    /// Reads `size` validated bytes out of `mem`, the bytes the window spans
    /// (`mem[i]` is the byte at address `start + i`). This is the only path
    /// from an address to bytes; it demands a successful validation.
    pub fn read_bytes(&self, mem: &[u8], addr: usize, size: usize) -> (bytes: Vec<u8>)
        requires
            self.wf(),
            mem@.len() == self.spec_len(),
            self.start <= addr,
            addr + size <= self.end,
        ensures
            bytes@ == mem@.subrange(addr - self.start, addr - self.start + size),
    {
        let offset = addr - self.start;
        let mut bytes: Vec<u8> = Vec::new();
        let mut i: usize = 0;
        while i < size
            invariant
                i <= size,
                mem@.len() == self.end - self.start,
                self.start <= addr,
                addr + size <= self.end,
                offset == addr - self.start,
                bytes@ == mem@.subrange(offset as int, offset + i),
            decreases size - i,
        {
            bytes.push(mem[offset + i]);
            assert(bytes@ =~= mem@.subrange(offset as int, offset + i + 1));
            i = i + 1;
        }
        bytes
    }
}

} // verus!
