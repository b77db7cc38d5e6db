use vstd::prelude::*;

use crate::constants::Byte;

verus! {

// Masks of the flags in the packed status byte, from bit 0 up.

/// Carry.
pub const CARRY: Byte = 0x01;

/// Zero result.
pub const ZERO: Byte = 0x02;

/// Interrupts disabled.
pub const INTERRUPT_DISABLE: Byte = 0x04;

/// Decimal mode.
pub const DECIMAL: Byte = 0x08;

/// Break command.
pub const BREAK: Byte = 0x10;

/// The unused bit, which always reads as 1.
pub const UNUSED: Byte = 0x20;

/// Overflow.
pub const OVERFLOW: Byte = 0x40;

/// Negative result (bit 7 of the value).
pub const NEGATIVE: Byte = 0x80;

} // verus!
