//! Terminal line editing: accumulates typed bytes into a line, honoring
//! backspace, ignoring other control characters, and bounding the buffer.
//! The byte channel itself lives with the hardware glue; each received byte
//! is handed in here and the returned action says what to echo.

use vstd::prelude::*;
use vstd::string::StringSliceAdditionalSpecFns;

verus! {

/// Capacity of the receive line buffer.
pub const RX_BUFFER_SIZE: usize = 128;

/// What the terminal should echo for the byte just accepted, beyond the byte
/// itself.
#[derive(Debug, Clone, Copy, PartialEq, Eq, Structural)]
pub enum TerminalAction {
    /// A line terminator arrived: echo a line break; the line is complete.
    LineEnd,
    /// A backspace removed a buffered byte: erase one character.
    Erased,
    /// A printable byte was stored.
    Stored,
    /// A printable byte arrived at a full buffer: the line is returned as if
    /// complete, and the byte is dropped.
    Overflowed,
    /// A control byte was ignored.
    Ignored,
}

/// Terminal state for line buffering.
pub struct Terminal {
    rx_buffer: Vec<u8>,
}

impl Terminal {
    /// The bytes buffered toward the next line.
    pub closed spec fn view(&self) -> Seq<u8> {
        self.rx_buffer@
    }

    pub open spec fn wf(&self) -> bool {
        self@.len() <= RX_BUFFER_SIZE
    }

    /// Create a new terminal with an empty buffer.
    pub fn new() -> (t: Terminal)
        ensures
            t.wf(),
            t@ == Seq::<u8>::empty(),
    {
        Terminal { rx_buffer: Vec::new() }
    }

    /// Accepts one received byte. A carriage return or newline completes the
    /// line; backspace or delete erases; printable ASCII is stored until the
    /// buffer fills, at which point the buffered line is surfaced as if
    /// complete; anything else is ignored.
    pub fn accept_byte(&mut self, byte: u8) -> (r: (Option<Vec<u8>>, TerminalAction))
        requires
            old(self).wf(),
        ensures
            final(self).wf(),
            byte == 13 || byte == 10 ==> final(self)@ == Seq::<u8>::empty()
                && r.1 == TerminalAction::LineEnd
                && (r.0 matches Some(l) && l@ == old(self)@),
            byte == 0x7F || byte == 0x08 ==> r.0 is None && (
                if old(self)@.len() > 0 {
                    final(self)@ == old(self)@.drop_last() && r.1 == TerminalAction::Erased
                } else {
                    final(self)@ == old(self)@ && r.1 == TerminalAction::Ignored
                }),
            0x20 <= byte <= 0x7E ==> (
                if old(self)@.len() < RX_BUFFER_SIZE {
                    final(self)@ == old(self)@.push(byte) && r.0 is None
                        && r.1 == TerminalAction::Stored
                } else {
                    final(self)@ == Seq::<u8>::empty() && r.1 == TerminalAction::Overflowed
                        && (r.0 matches Some(l) && l@ == old(self)@)
                }),
            !(byte == 13 || byte == 10 || byte == 0x7F || byte == 0x08
                || 0x20 <= byte <= 0x7E)
                ==> final(self)@ == old(self)@ && r.0 is None && r.1 == TerminalAction::Ignored,
    {
        if byte == 13 || byte == 10 {
            let line = take_buffer(&mut self.rx_buffer);
            (Some(line), TerminalAction::LineEnd)
        } else if byte == 0x7F || byte == 0x08 {
            if self.rx_buffer.len() > 0 {
                self.rx_buffer.pop();
                (None, TerminalAction::Erased)
            } else {
                (None, TerminalAction::Ignored)
            }
        } else if 0x20 <= byte && byte <= 0x7E {
            if self.rx_buffer.len() < RX_BUFFER_SIZE {
                self.rx_buffer.push(byte);
                (None, TerminalAction::Stored)
            } else {
                let line = take_buffer(&mut self.rx_buffer);
                (Some(line), TerminalAction::Overflowed)
            }
        } else {
            (None, TerminalAction::Ignored)
        }
    }
}

/// Moves the buffered bytes out, leaving the buffer empty.
fn take_buffer(buf: &mut Vec<u8>) -> (line: Vec<u8>)
    ensures
        line@ == old(buf)@,
        final(buf)@ == Seq::<u8>::empty(),
{
    let line = crate::tokenize::copy_range(buf.as_slice(), 0, buf.len());
    proof {
        assert(line@ =~= buf@);
    }
    buf.clear();
    line
}

/// Converts received bytes to text.
///
/// Relies on `core::str::from_utf8`: it returns `Ok` exactly on valid UTF-8,
/// and the resulting string views the same bytes.
#[verifier::external_body]
pub fn bytes_to_str(bytes: &[u8]) -> (r: Result<&str, ()>)
    ensures
        match r {
            Ok(s) => vstd::utf8::valid_utf8(bytes@) && s.spec_bytes() == bytes@,
            Err(_) => !vstd::utf8::valid_utf8(bytes@),
        },
{
    core::str::from_utf8(bytes).map_err(|_| ())
}

} // verus!
