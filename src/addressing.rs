use vstd::prelude::*;

use crate::constants::{Byte, Word};
use crate::cpu::{word_of, wrap16, wrap8, zero_page_word, CPU};
use crate::memory::Mem;
use crate::opcodes::AddressingMode;

verus! {

/// What an addressing mode resolves to.
#[derive(Debug, Clone, Copy, PartialEq, Eq, Structural)]
pub enum Operand {
    /// An immediate value.
    Value(Byte),
    /// An effective address.
    Address(Word),
}

/// Resolution of `mode` with the operand bytes at `cpu.pc`: the operand,
/// the program counter after the operand bytes, and the cycles taken (one
/// per byte fetched or read).
pub open spec fn resolve(cpu: CPU, mem: Seq<Byte>, mode: AddressingMode) -> (Operand, Word, int) {
    let b = mem[cpu.pc as int];
    let pc1 = wrap16(cpu.pc + 1);
    match mode {
        AddressingMode::Immediate => (Operand::Value(b), pc1, 1),
        AddressingMode::ZeroPage => (Operand::Address(b as Word), pc1, 1),
        AddressingMode::ZeroPageX => (Operand::Address(wrap8(b + cpu.x) as Word), pc1, 1),
        AddressingMode::ZeroPageY => (Operand::Address(wrap8(b + cpu.y) as Word), pc1, 1),
        AddressingMode::Absolute => (Operand::Address(absolute(cpu, mem)), wrap16(cpu.pc + 2), 2),
        AddressingMode::AbsoluteX => (
            Operand::Address(wrap16(absolute(cpu, mem) + cpu.x)),
            wrap16(cpu.pc + 2),
            2,
        ),
        AddressingMode::AbsoluteY => (
            Operand::Address(wrap16(absolute(cpu, mem) + cpu.y)),
            wrap16(cpu.pc + 2),
            2,
        ),
        AddressingMode::IndirectX => (
            Operand::Address(zero_page_word(mem, wrap8(b + cpu.x))),
            pc1,
            3,
        ),
        AddressingMode::IndirectY => (
            Operand::Address(wrap16(zero_page_word(mem, b) + cpu.y)),
            pc1,
            3,
        ),
    }
}

/// The little-endian word in the two operand bytes at `cpu.pc`.
pub open spec fn absolute(cpu: CPU, mem: Seq<Byte>) -> Word {
    word_of(mem[cpu.pc as int], mem[wrap16(cpu.pc + 1) as int])
}

impl CPU {
    /// Resolves `mode` with the operand bytes at the program counter, which
    /// it moves past them; one cycle per byte fetched or read.
    pub fn resolve_operand(&mut self, mode: AddressingMode, cycles: &mut i32, mem: &Mem) -> (r:
        Operand)
        requires
            mem.wf(),
            *old(cycles) > i32::MIN + 2,
        ensures
            ({
                let (operand, pc, cost) = resolve(*old(self), mem@, mode);
                &&& r == operand
                &&& *final(self) == (CPU { pc, ..*old(self) })
                &&& *final(cycles) == *old(cycles) - cost
            }),
    {
        match mode {
            AddressingMode::Immediate => Operand::Value(self.fetch_byte(cycles, mem)),
            AddressingMode::ZeroPage => Operand::Address(self.fetch_byte(cycles, mem) as Word),
            AddressingMode::ZeroPageX => {
                let base: Byte = self.fetch_byte(cycles, mem);
                Operand::Address(base.wrapping_add(self.x) as Word)
            },
            AddressingMode::ZeroPageY => {
                let base: Byte = self.fetch_byte(cycles, mem);
                Operand::Address(base.wrapping_add(self.y) as Word)
            },
            AddressingMode::Absolute => Operand::Address(self.fetch_word(cycles, mem)),
            AddressingMode::AbsoluteX => {
                let base: Word = self.fetch_word(cycles, mem);
                Operand::Address(base.wrapping_add(self.x as Word))
            },
            AddressingMode::AbsoluteY => {
                let base: Word = self.fetch_word(cycles, mem);
                Operand::Address(base.wrapping_add(self.y as Word))
            },
            AddressingMode::IndirectX => {
                let base: Byte = self.fetch_byte(cycles, mem);
                let pointer: Byte = base.wrapping_add(self.x);
                Operand::Address(self.read_word(cycles, pointer, mem))
            },
            AddressingMode::IndirectY => {
                let pointer: Byte = self.fetch_byte(cycles, mem);
                let base: Word = self.read_word(cycles, pointer, mem);
                Operand::Address(base.wrapping_add(self.y as Word))
            },
        }
    }
}

} // verus!
