use vstd::prelude::*;

verus! {

/// An 8-bit value.
pub type Byte = u8;

/// A 16-bit value: an address or a register as wide as the address bus.
pub type Word = u16;

/// Number of addressable bytes.
pub const MAX_MEM: usize = 65536;

/// True when `b` is a printable ASCII character (space through tilde).
pub open spec fn is_printable(b: u8) -> bool {
    32 <= b <= 126
}

/// The character for `b` when it is printable, else `placeholder`.
pub open spec fn printable_or(b: u8, placeholder: char) -> char {
    if is_printable(b) {
        b as char
    } else {
        placeholder
    }
}

/// Renders a byte as a character for a diagnostic dump.
pub fn printable_char(b: Byte, placeholder: char) -> (r: char)
    ensures
        r == printable_or(b, placeholder),
{
    if b >= 32 && b <= 126 {
        b as char
    } else {
        placeholder
    }
}

/// A byte read from memory in order to be shown as a character.
#[derive(Debug, Copy, Clone)]
pub struct SByte(pub u8);

impl SByte {
    /// The character this byte shows as: itself when printable, `_` otherwise.
    pub fn display_char(&self) -> (r: char)
        ensures
            r == printable_or(self.0, '_'),
    {
        printable_char(self.0, '_')
    }
}

impl From<u8> for SByte {
    fn from(value: u8) -> (r: SByte)
        ensures
            r.0 == value,
    {
        SByte(value)
    }
}

impl vstd::std_specs::convert::FromSpecImpl<u8> for SByte {
    open spec fn obeys_from_spec() -> bool {
        true
    }

    open spec fn from_spec(v: u8) -> SByte {
        SByte(v)
    }
}

} // verus!
