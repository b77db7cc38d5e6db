use vstd::prelude::*;

use crate::constants::{Byte, SByte, Word, MAX_MEM};
use crate::memory::Mem;
use crate::opcodes::Register;
use crate::status::{
    BREAK, CARRY, DECIMAL, INTERRUPT_DISABLE, NEGATIVE, OVERFLOW, UNUSED, ZERO,
};

verus! {

/// Where `reset` points the program counter: this address itself, not the
/// word stored there as on the hardware.
pub const RESET_VECTOR: Word = 0xFFFC;

/// The stack pointer after `reset`.
pub const STACK_RESET: Word = 0x0100;

/// First address of the stack page.
pub const STACK_PAGE: Word = 0x0100;

/// The register file: program counter, stack pointer, accumulator, the two
/// index registers and the seven status flags.
#[derive(Debug, Clone, Copy, PartialEq, Eq, Structural)]
pub struct CPU {
    /// Program counter.
    pub pc: Word,
    /// Stack pointer: its low byte is an offset into the stack page.
    pub sp: Word,
    /// Accumulator.
    pub a: Byte,
    /// Index register X.
    pub x: Byte,
    /// Index register Y.
    pub y: Byte,
    /// Carry flag.
    pub c: bool,
    /// Zero flag.
    pub z: bool,
    /// Interrupt-disable flag.
    pub i: bool,
    /// Decimal-mode flag.
    pub d: bool,
    /// Break flag.
    pub b: bool,
    /// Overflow flag.
    pub v: bool,
    /// Negative flag.
    pub n: bool,
}

/// Every register zero and every flag clear.
pub open spec fn power_on() -> CPU {
    CPU {
        pc: 0,
        sp: 0,
        a: 0,
        x: 0,
        y: 0,
        c: false,
        z: false,
        i: false,
        d: false,
        b: false,
        v: false,
        n: false,
    }
}

/// The register file right after `reset`.
pub open spec fn reset_state() -> CPU {
    CPU { pc: RESET_VECTOR, sp: STACK_RESET, ..power_on() }
}

/// `w`, a sum below 0x20000 of 16-bit values, wrapped into 16 bits.
pub open spec fn wrap16(w: int) -> Word {
    if w >= 0x10000 {
        (w - 0x10000) as Word
    } else {
        w as Word
    }
}

/// `b`, a sum below 0x200 of bytes, wrapped into 8 bits (the zero page).
pub open spec fn wrap8(b: int) -> Byte {
    if b >= 0x100 {
        (b - 0x100) as Byte
    } else {
        b as Byte
    }
}

/// The little-endian word made of `lo` and `hi`.
pub open spec fn word_of(lo: Byte, hi: Byte) -> Word {
    (lo + 0x100 * hi) as Word
}

/// Bit 7 of `v`.
pub open spec fn is_negative(v: Byte) -> bool {
    (v & NEGATIVE) != 0
}

/// The status byte of `cpu`: its seven flags, with the unused bit set.
pub open spec fn status_of(cpu: CPU) -> Byte {
    (if cpu.c { CARRY } else { 0 }) | (if cpu.z { ZERO } else { 0 }) | (if cpu.i {
        INTERRUPT_DISABLE
    } else {
        0
    }) | (if cpu.d { DECIMAL } else { 0 }) | (if cpu.b { BREAK } else { 0 }) | UNUSED | (if cpu.v {
        OVERFLOW
    } else {
        0
    }) | (if cpu.n { NEGATIVE } else { 0 })
}

/// `cpu` with its seven flags taken from the status byte `s`.
pub open spec fn with_status(cpu: CPU, s: Byte) -> CPU {
    CPU {
        c: (s & CARRY) != 0,
        z: (s & ZERO) != 0,
        i: (s & INTERRUPT_DISABLE) != 0,
        d: (s & DECIMAL) != 0,
        b: (s & BREAK) != 0,
        v: (s & OVERFLOW) != 0,
        n: (s & NEGATIVE) != 0,
        ..cpu
    }
}

/// The value of register `r`.
pub open spec fn register_value(cpu: CPU, r: Register) -> Byte {
    match r {
        Register::A => cpu.a,
        Register::X => cpu.x,
        Register::Y => cpu.y,
    }
}

/// `cpu` with `v` in register `r`, the flags untouched.
pub open spec fn with_register(cpu: CPU, r: Register, v: Byte) -> CPU {
    match r {
        Register::A => CPU { a: v, ..cpu },
        Register::X => CPU { x: v, ..cpu },
        Register::Y => CPU { y: v, ..cpu },
    }
}

/// `cpu` after `v` is loaded into `r`: the zero and negative flags follow `v`.
pub open spec fn loaded(cpu: CPU, r: Register, v: Byte) -> CPU {
    CPU { z: v == 0, n: is_negative(v), ..with_register(cpu, r, v) }
}

/// A load puts the value in the register, sets the zero flag iff the value
/// is 0 and the negative flag iff its bit 7 is set, and changes nothing else.
pub proof fn lemma_load_flags(cpu: CPU, r: Register, v: Byte)
    ensures
        register_value(loaded(cpu, r, v), r) == v,
        loaded(cpu, r, v).z == (v == 0),
        loaded(cpu, r, v).n == ((v & 0x80) != 0),
        ({
            let l = loaded(cpu, r, v);
            &&& l.c == cpu.c && l.i == cpu.i && l.d == cpu.d && l.b == cpu.b && l.v == cpu.v
            &&& l.pc == cpu.pc && l.sp == cpu.sp
        }),
{
}

/// Setting the status byte to `s` and reading it back gives `s` with the
/// unused bit (bit 5) set, whatever bit 5 of `s` was.
pub proof fn lemma_status_round_trip(cpu: CPU, s: Byte)
    ensures
        status_of(with_status(cpu, s)) == s | UNUSED,
        status_of(with_status(cpu, s)) == s | 0x20,
{
    let c = (s & CARRY) != 0;
    let z = (s & ZERO) != 0;
    let i = (s & INTERRUPT_DISABLE) != 0;
    let d = (s & DECIMAL) != 0;
    let b = (s & BREAK) != 0;
    let v = (s & OVERFLOW) != 0;
    let n = (s & NEGATIVE) != 0;
    assert((if c { CARRY } else { 0 }) | (if z { ZERO } else { 0 }) | (if i {
        INTERRUPT_DISABLE
    } else {
        0
    }) | (if d { DECIMAL } else { 0 }) | (if b { BREAK } else { 0 }) | UNUSED | (if v {
        OVERFLOW
    } else {
        0
    }) | (if n { NEGATIVE } else { 0 }) == s | UNUSED) by (bit_vector)
        requires
            c == ((s & CARRY) != 0),
            z == ((s & ZERO) != 0),
            i == ((s & INTERRUPT_DISABLE) != 0),
            d == ((s & DECIMAL) != 0),
            b == ((s & BREAK) != 0),
            v == ((s & OVERFLOW) != 0),
            n == ((s & NEGATIVE) != 0),
    ;
}

/// The little-endian word at zero-page address `p`, its high byte at the
/// next address wrapped into the zero page.
pub open spec fn zero_page_word(mem: Seq<Byte>, p: Byte) -> Word {
    word_of(mem[p as int], mem[wrap8(p + 1) as int])
}

/// The stack address that stack pointer `sp` designates.
pub open spec fn stack_address(sp: Word) -> Word {
    (STACK_PAGE + sp % 0x100) as Word
}

/// The registers and memory after `value` is pushed: its high byte at the
/// stack address, its low byte at the one below, and the stack pointer two
/// lower, wrapping.
pub open spec fn push_result(cpu: CPU, mem: Seq<Byte>, value: Word) -> (CPU, Seq<Byte>) {
    let sp1 = wrap16(cpu.sp + 0xFFFF);
    (
        CPU { sp: wrap16(cpu.sp + 0xFFFE), ..cpu },
        mem.update(stack_address(cpu.sp) as int, (value / 0x100) as Byte).update(
            stack_address(sp1) as int,
            (value % 0x100) as Byte,
        ),
    )
}

impl CPU {
    /// A register file with every register zero and every flag clear.
    pub fn new() -> (r: CPU)
        ensures
            r == power_on(),
    {
        CPU {
            pc: 0,
            sp: 0,
            a: 0,
            x: 0,
            y: 0,
            c: false,
            z: false,
            i: false,
            d: false,
            b: false,
            v: false,
            n: false,
        }
    }

    /// Puts the program counter at the reset vector and the stack pointer
    /// at its start, clears the other registers and every flag, and clears
    /// memory. Call it before a program is loaded.
    pub fn reset(&mut self, mem: &mut Mem)
        requires
            old(mem).wf(),
        ensures
            *final(self) == reset_state(),
            final(self).pc == 0xFFFC && final(self).sp == 0x0100,
            final(mem).wf(),
            forall|k: int| 0 <= k < MAX_MEM ==> #[trigger] final(mem)@[k] == 0,
    {
        self.pc = RESET_VECTOR;
        self.sp = STACK_RESET;
        self.a = 0;
        self.x = 0;
        self.y = 0;
        self.c = false;
        self.z = false;
        self.i = false;
        self.d = false;
        self.b = false;
        self.v = false;
        self.n = false;
        mem.initialize();
    }

    /// The program counter.
    pub fn get_pc(&self) -> (r: Word)
        ensures
            r == self.pc,
    {
        self.pc
    }

    /// Sets the program counter.
    pub fn set_pc(&mut self, value: Word)
        ensures
            *final(self) == (CPU { pc: value, ..*old(self) }),
    {
        self.pc = value;
    }

    /// The stack pointer.
    pub fn get_sp(&self) -> (r: Word)
        ensures
            r == self.sp,
    {
        self.sp
    }

    /// Sets the stack pointer.
    pub fn set_sp(&mut self, value: Word)
        ensures
            *final(self) == (CPU { sp: value, ..*old(self) }),
    {
        self.sp = value;
    }

    /// The accumulator.
    pub fn get_a(&self) -> (r: Byte)
        ensures
            r == self.a,
    {
        self.a
    }

    /// Sets the accumulator and derives the zero and negative flags from it.
    pub fn set_a(&mut self, value: Byte)
        ensures
            *final(self) == loaded(*old(self), Register::A, value),
            final(self).a == value,
            final(self).z == (value == 0),
            final(self).n == ((value & 0x80) != 0),
    {
        self.a = value;
        self.set_zero_negative(value);
    }

    /// Index register X.
    pub fn get_x(&self) -> (r: Byte)
        ensures
            r == self.x,
    {
        self.x
    }

    /// Sets index register X and derives the zero and negative flags from it.
    pub fn set_x(&mut self, value: Byte)
        ensures
            *final(self) == loaded(*old(self), Register::X, value),
            final(self).x == value,
            final(self).z == (value == 0),
            final(self).n == ((value & 0x80) != 0),
    {
        self.x = value;
        self.set_zero_negative(value);
    }

    /// Index register Y.
    pub fn get_y(&self) -> (r: Byte)
        ensures
            r == self.y,
    {
        self.y
    }

    /// Sets index register Y and derives the zero and negative flags from it.
    pub fn set_y(&mut self, value: Byte)
        ensures
            *final(self) == loaded(*old(self), Register::Y, value),
            final(self).y == value,
            final(self).z == (value == 0),
            final(self).n == ((value & 0x80) != 0),
    {
        self.y = value;
        self.set_zero_negative(value);
    }

    /// The status byte: carry in bit 0, then zero, interrupt-disable,
    /// decimal, break, the unused bit (always 1), overflow and negative.
    pub fn get_status(&self) -> (r: Byte)
        ensures
            r == status_of(*self),
    {
        (if self.c { CARRY } else { 0 }) | (if self.z { ZERO } else { 0 }) | (if self.i {
            INTERRUPT_DISABLE
        } else {
            0
        }) | (if self.d { DECIMAL } else { 0 }) | (if self.b { BREAK } else { 0 }) | UNUSED | (
        if self.v {
            OVERFLOW
        } else {
            0
        }) | (if self.n { NEGATIVE } else { 0 })
    }

    /// Sets the seven flags from the status byte `s`; its unused bit is ignored.
    pub fn set_status(&mut self, s: Byte)
        ensures
            *final(self) == with_status(*old(self), s),
    {
        self.c = (s & CARRY) != 0;
        self.z = (s & ZERO) != 0;
        self.i = (s & INTERRUPT_DISABLE) != 0;
        self.d = (s & DECIMAL) != 0;
        self.b = (s & BREAK) != 0;
        self.v = (s & OVERFLOW) != 0;
        self.n = (s & NEGATIVE) != 0;
    }

    /// Sets the zero flag iff `value` is 0 and the negative flag iff bit 7
    /// of `value` is set, as a load does.
    pub fn set_zero_negative(&mut self, value: Byte)
        ensures
            *final(self) == (CPU { z: value == 0, n: is_negative(value), ..*old(self) }),
    {
        self.z = value == 0;
        self.n = (value & NEGATIVE) != 0;
    }

    /// Fetches the byte at the program counter and advances it; one cycle.
    pub fn fetch_byte(&mut self, cycles: &mut i32, mem: &Mem) -> (r: Byte)
        requires
            mem.wf(),
            *old(cycles) > i32::MIN,
        ensures
            r == mem@[old(self).pc as int],
            *final(self) == (CPU { pc: wrap16(old(self).pc + 1), ..*old(self) }),
            *final(cycles) == *old(cycles) - 1,
    {
        let data: Byte = mem.byte_at(self.pc);
        self.pc = self.pc.wrapping_add(1);
        *cycles = *cycles - 1;
        data
    }

    /// Fetches the byte at the program counter as a character; one cycle.
    pub fn fetch_sbyte(&mut self, cycles: &mut i32, mem: &Mem) -> (r: SByte)
        requires
            mem.wf(),
            *old(cycles) > i32::MIN,
        ensures
            r.0 == mem@[old(self).pc as int],
            *final(self) == (CPU { pc: wrap16(old(self).pc + 1), ..*old(self) }),
            *final(cycles) == *old(cycles) - 1,
    {
        SByte::from(self.fetch_byte(cycles, mem))
    }

    /// Fetches the little-endian word at the program counter, low byte
    /// first, and advances past it; two cycles.
    pub fn fetch_word(&mut self, cycles: &mut i32, mem: &Mem) -> (r: Word)
        requires
            mem.wf(),
            *old(cycles) > i32::MIN + 1,
        ensures
            r == word_of(mem@[old(self).pc as int], mem@[wrap16(old(self).pc + 1) as int]),
            *final(self) == (CPU { pc: wrap16(old(self).pc + 2), ..*old(self) }),
            *final(cycles) == *old(cycles) - 2,
    {
        let lo: Byte = self.fetch_byte(cycles, mem);
        let hi: Byte = self.fetch_byte(cycles, mem);
        lo as Word + hi as Word * 0x100
    }

    /// The byte at `address`, without moving the program counter; one cycle.
    pub fn read_byte(&self, cycles: &mut i32, address: Word, mem: &Mem) -> (r: Byte)
        requires
            mem.wf(),
            *old(cycles) > i32::MIN,
        ensures
            r == mem@[address as int],
            *final(cycles) == *old(cycles) - 1,
    {
        let data: Byte = mem.byte_at(address);
        *cycles = *cycles - 1;
        data
    }

    /// The little-endian word at zero-page address `address`, its high byte
    /// wrapped into the zero page; two cycles.
    pub fn read_word(&self, cycles: &mut i32, address: Byte, mem: &Mem) -> (r: Word)
        requires
            mem.wf(),
            *old(cycles) > i32::MIN + 1,
        ensures
            r == zero_page_word(mem@, address),
            *final(cycles) == *old(cycles) - 2,
    {
        let lo: Byte = self.read_byte(cycles, address as Word, mem);
        let hi: Byte = self.read_byte(cycles, address.wrapping_add(1) as Word, mem);
        lo as Word + hi as Word * 0x100
    }

    /// Writes `value` at `address`; one cycle.
    pub fn write_byte(&mut self, value: Byte, cycles: &mut i32, address: Word, mem: &mut Mem)
        requires
            old(mem).wf(),
            *old(cycles) > i32::MIN,
        ensures
            *final(self) == *old(self),
            final(mem)@ == old(mem)@.update(address as int, value),
            *final(cycles) == *old(cycles) - 1,
    {
        mem.store(address, value);
        *cycles = *cycles - 1;
    }

    /// Writes `value` little-endian at `address` and the next address; two
    /// cycles.
    pub fn write_word(&mut self, value: Word, cycles: &mut i32, address: Word, mem: &mut Mem)
        requires
            old(mem).wf(),
            *old(cycles) > i32::MIN + 1,
        ensures
            *final(self) == *old(self),
            final(mem)@ == old(mem)@.update(address as int, (value % 0x100) as Byte).update(
                wrap16(address + 1) as int,
                (value / 0x100) as Byte,
            ),
            *final(cycles) == *old(cycles) - 2,
    {
        mem.store(address, (value % 0x100) as Byte);
        mem.store(address.wrapping_add(1), (value / 0x100) as Byte);
        *cycles = *cycles - 2;
    }

    /// The address in the stack page that the stack pointer designates.
    pub fn sp_to_address(&self) -> (r: Word)
        ensures
            r == stack_address(self.sp),
    {
        STACK_PAGE + self.sp % 0x100
    }

    /// Pushes `value`: its high byte at the stack address, then its low byte
    /// one below, the stack pointer moving down by one after each; two
    /// cycles. The stack wraps within its page.
    pub fn push_word_to_stack(&mut self, value: Word, cycles: &mut i32, mem: &mut Mem)
        requires
            old(mem).wf(),
            *old(cycles) > i32::MIN + 1,
        ensures
            (*final(self), final(mem)@) == push_result(*old(self), old(mem)@, value),
            *final(cycles) == *old(cycles) - 2,
    {
        self.write_byte((value / 0x100) as Byte, cycles, self.sp_to_address(), mem);
        self.sp = self.sp.wrapping_sub(1);
        self.write_byte((value % 0x100) as Byte, cycles, self.sp_to_address(), mem);
        self.sp = self.sp.wrapping_sub(1);
    }

    /// Pushes the program counter.
    pub fn push_pc_to_stack(&mut self, cycles: &mut i32, mem: &mut Mem)
        requires
            old(mem).wf(),
            *old(cycles) > i32::MIN + 1,
        ensures
            (*final(self), final(mem)@) == push_result(*old(self), old(mem)@, old(self).pc),
            *final(cycles) == *old(cycles) - 2,
    {
        self.push_word_to_stack(self.pc, cycles, mem);
    }

    /// Pushes the program counter minus one.
    pub fn push_pc_minus_one_to_stack(&mut self, cycles: &mut i32, mem: &mut Mem)
        requires
            old(mem).wf(),
            *old(cycles) > i32::MIN + 1,
        ensures
            (*final(self), final(mem)@) == push_result(
                *old(self),
                old(mem)@,
                wrap16(old(self).pc + 0xFFFF),
            ),
            *final(cycles) == *old(cycles) - 2,
    {
        self.push_word_to_stack(self.pc.wrapping_sub(1), cycles, mem);
    }

    /// Pushes the program counter plus one.
    pub fn push_pc_plus_one_to_stack(&mut self, cycles: &mut i32, mem: &mut Mem)
        requires
            old(mem).wf(),
            *old(cycles) > i32::MIN + 1,
        ensures
            (*final(self), final(mem)@) == push_result(*old(self), old(mem)@, wrap16(old(self).pc + 1)),
            *final(cycles) == *old(cycles) - 2,
    {
        self.push_word_to_stack(self.pc.wrapping_add(1), cycles, mem);
    }

    /// The value of register `r`.
    pub fn register(&self, r: Register) -> (v: Byte)
        ensures
            v == register_value(*self, r),
    {
        match r {
            Register::A => self.a,
            Register::X => self.x,
            Register::Y => self.y,
        }
    }

    /// Loads `v` into register `r` and derives the zero and negative flags
    /// from it.
    pub fn load(&mut self, r: Register, v: Byte)
        ensures
            *final(self) == loaded(*old(self), r, v),
    {
        match r {
            Register::A => self.set_a(v),
            Register::X => self.set_x(v),
            Register::Y => self.set_y(v),
        }
    }


}

} // verus!
