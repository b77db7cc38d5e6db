use vstd::prelude::*;

use crate::constants::Byte;

verus! {

// Opcodes that load the accumulator.

pub const LDA_IMMEDIATE: Byte = 0xA9;
pub const LDA_ZERO_PAGE: Byte = 0xA5;
pub const LDA_ZERO_PAGE_X: Byte = 0xB5;
pub const LDA_ABSOLUTE: Byte = 0xAD;
pub const LDA_ABSOLUTE_X: Byte = 0xBD;
pub const LDA_ABSOLUTE_Y: Byte = 0xB9;
pub const LDA_INDIRECT_X: Byte = 0xA1;
pub const LDA_INDIRECT_Y: Byte = 0xB1;

// Opcodes that load the X register.

pub const LDX_IMMEDIATE: Byte = 0xA2;
pub const LDX_ZERO_PAGE: Byte = 0xA6;
pub const LDX_ZERO_PAGE_Y: Byte = 0xB6;
pub const LDX_ABSOLUTE: Byte = 0xAE;
pub const LDX_ABSOLUTE_Y: Byte = 0xBE;

// Opcodes that load the Y register.

pub const LDY_IMMEDIATE: Byte = 0xA0;
pub const LDY_ZERO_PAGE: Byte = 0xA4;
pub const LDY_ZERO_PAGE_X: Byte = 0xB4;
pub const LDY_ABSOLUTE: Byte = 0xAC;
pub const LDY_ABSOLUTE_X: Byte = 0xBC;

// Opcodes that store the accumulator.

pub const STA_ZERO_PAGE: Byte = 0x85;
pub const STA_ZERO_PAGE_X: Byte = 0x95;
pub const STA_ABSOLUTE: Byte = 0x8D;
pub const STA_ABSOLUTE_X: Byte = 0x9D;
pub const STA_ABSOLUTE_Y: Byte = 0x99;
pub const STA_INDIRECT_X: Byte = 0x81;
pub const STA_INDIRECT_Y: Byte = 0x91;

// Opcodes that store the X register.

pub const STX_ZERO_PAGE: Byte = 0x86;
pub const STX_ZERO_PAGE_Y: Byte = 0x96;
pub const STX_ABSOLUTE: Byte = 0x8E;

// Opcodes that store the Y register.

pub const STY_ZERO_PAGE: Byte = 0x84;
pub const STY_ZERO_PAGE_X: Byte = 0x94;
pub const STY_ABSOLUTE: Byte = 0x8C;

// Opcodes of the bitwise AND family, which the engine does not decode.

pub const AND_IMMEDIATE: Byte = 0x29;
pub const AND_ZERO_PAGE: Byte = 0x25;
pub const AND_ZERO_PAGE_X: Byte = 0x35;
pub const AND_ABSOLUTE: Byte = 0x2D;
pub const AND_ABSOLUTE_X: Byte = 0x3D;
pub const AND_ABSOLUTE_Y: Byte = 0x39;
pub const AND_INDIRECT_X: Byte = 0x21;
pub const AND_INDIRECT_Y: Byte = 0x31;

/// A register that an instruction loads or stores.
#[derive(Debug, Clone, Copy, PartialEq, Eq, Structural)]
pub enum Register {
    A,
    X,
    Y,
}

/// How an instruction finds its operand.
#[derive(Debug, Clone, Copy, PartialEq, Eq, Structural)]
pub enum AddressingMode {
    /// The operand byte itself.
    Immediate,
    /// An address in the zero page.
    ZeroPage,
    /// A zero-page address plus X, wrapped into the zero page.
    ZeroPageX,
    /// A zero-page address plus Y, wrapped into the zero page.
    ZeroPageY,
    /// A little-endian 16-bit address.
    Absolute,
    /// A 16-bit address plus X.
    AbsoluteX,
    /// A 16-bit address plus Y.
    AbsoluteY,
    /// The word stored at a zero-page pointer, the pointer being the operand plus X.
    IndirectX,
    /// The word stored at a zero-page pointer, plus Y.
    IndirectY,
}

/// What an instruction does with its operand.
#[derive(Debug, Clone, Copy, PartialEq, Eq, Structural)]
pub enum Operation {
    /// Sets the register to the operand and derives the zero and negative flags.
    Load(Register),
    /// Writes the register to the effective address; no flag changes.
    Store(Register),
}

/// An entry of the opcode table.
#[derive(Debug, Clone, Copy, PartialEq, Eq, Structural)]
pub struct Instruction {
    pub operation: Operation,
    pub mode: AddressingMode,
}

/// The opcode table: the operation and addressing mode that `opcode`
/// encodes, if any.
pub open spec fn table_entry(opcode: Byte) -> Option<(Operation, AddressingMode)> {
    match opcode {
        LDA_IMMEDIATE => Some((Operation::Load(Register::A), AddressingMode::Immediate)),
        LDA_ZERO_PAGE => Some((Operation::Load(Register::A), AddressingMode::ZeroPage)),
        LDA_ZERO_PAGE_X => Some((Operation::Load(Register::A), AddressingMode::ZeroPageX)),
        LDA_ABSOLUTE => Some((Operation::Load(Register::A), AddressingMode::Absolute)),
        LDA_ABSOLUTE_X => Some((Operation::Load(Register::A), AddressingMode::AbsoluteX)),
        LDA_ABSOLUTE_Y => Some((Operation::Load(Register::A), AddressingMode::AbsoluteY)),
        LDA_INDIRECT_X => Some((Operation::Load(Register::A), AddressingMode::IndirectX)),
        LDA_INDIRECT_Y => Some((Operation::Load(Register::A), AddressingMode::IndirectY)),
        LDX_IMMEDIATE => Some((Operation::Load(Register::X), AddressingMode::Immediate)),
        LDX_ZERO_PAGE => Some((Operation::Load(Register::X), AddressingMode::ZeroPage)),
        LDX_ZERO_PAGE_Y => Some((Operation::Load(Register::X), AddressingMode::ZeroPageY)),
        LDX_ABSOLUTE => Some((Operation::Load(Register::X), AddressingMode::Absolute)),
        LDX_ABSOLUTE_Y => Some((Operation::Load(Register::X), AddressingMode::AbsoluteY)),
        LDY_IMMEDIATE => Some((Operation::Load(Register::Y), AddressingMode::Immediate)),
        LDY_ZERO_PAGE => Some((Operation::Load(Register::Y), AddressingMode::ZeroPage)),
        LDY_ZERO_PAGE_X => Some((Operation::Load(Register::Y), AddressingMode::ZeroPageX)),
        LDY_ABSOLUTE => Some((Operation::Load(Register::Y), AddressingMode::Absolute)),
        LDY_ABSOLUTE_X => Some((Operation::Load(Register::Y), AddressingMode::AbsoluteX)),
        STA_ZERO_PAGE => Some((Operation::Store(Register::A), AddressingMode::ZeroPage)),
        STA_ZERO_PAGE_X => Some((Operation::Store(Register::A), AddressingMode::ZeroPageX)),
        STA_ABSOLUTE => Some((Operation::Store(Register::A), AddressingMode::Absolute)),
        STA_ABSOLUTE_X => Some((Operation::Store(Register::A), AddressingMode::AbsoluteX)),
        STA_ABSOLUTE_Y => Some((Operation::Store(Register::A), AddressingMode::AbsoluteY)),
        STA_INDIRECT_X => Some((Operation::Store(Register::A), AddressingMode::IndirectX)),
        STA_INDIRECT_Y => Some((Operation::Store(Register::A), AddressingMode::IndirectY)),
        STX_ZERO_PAGE => Some((Operation::Store(Register::X), AddressingMode::ZeroPage)),
        STX_ZERO_PAGE_Y => Some((Operation::Store(Register::X), AddressingMode::ZeroPageY)),
        STX_ABSOLUTE => Some((Operation::Store(Register::X), AddressingMode::Absolute)),
        STY_ZERO_PAGE => Some((Operation::Store(Register::Y), AddressingMode::ZeroPage)),
        STY_ZERO_PAGE_X => Some((Operation::Store(Register::Y), AddressingMode::ZeroPageX)),
        STY_ABSOLUTE => Some((Operation::Store(Register::Y), AddressingMode::Absolute)),
        _ => None,
    }
}

/// The instruction that `opcode` encodes, if any.
pub open spec fn instruction_of(opcode: Byte) -> Option<Instruction> {
    match table_entry(opcode) {
        Some((operation, mode)) => Some(Instruction { operation, mode }),
        None => None,
    }
}

/// Looks `opcode` up in the opcode table.
pub fn decode(opcode: Byte) -> (r: Option<Instruction>)
    ensures
        r == instruction_of(opcode),
{
    let entry: Option<(Operation, AddressingMode)> = match opcode {
        LDA_IMMEDIATE => Some((Operation::Load(Register::A), AddressingMode::Immediate)),
        LDA_ZERO_PAGE => Some((Operation::Load(Register::A), AddressingMode::ZeroPage)),
        LDA_ZERO_PAGE_X => Some((Operation::Load(Register::A), AddressingMode::ZeroPageX)),
        LDA_ABSOLUTE => Some((Operation::Load(Register::A), AddressingMode::Absolute)),
        LDA_ABSOLUTE_X => Some((Operation::Load(Register::A), AddressingMode::AbsoluteX)),
        LDA_ABSOLUTE_Y => Some((Operation::Load(Register::A), AddressingMode::AbsoluteY)),
        LDA_INDIRECT_X => Some((Operation::Load(Register::A), AddressingMode::IndirectX)),
        LDA_INDIRECT_Y => Some((Operation::Load(Register::A), AddressingMode::IndirectY)),
        LDX_IMMEDIATE => Some((Operation::Load(Register::X), AddressingMode::Immediate)),
        LDX_ZERO_PAGE => Some((Operation::Load(Register::X), AddressingMode::ZeroPage)),
        LDX_ZERO_PAGE_Y => Some((Operation::Load(Register::X), AddressingMode::ZeroPageY)),
        LDX_ABSOLUTE => Some((Operation::Load(Register::X), AddressingMode::Absolute)),
        LDX_ABSOLUTE_Y => Some((Operation::Load(Register::X), AddressingMode::AbsoluteY)),
        LDY_IMMEDIATE => Some((Operation::Load(Register::Y), AddressingMode::Immediate)),
        LDY_ZERO_PAGE => Some((Operation::Load(Register::Y), AddressingMode::ZeroPage)),
        LDY_ZERO_PAGE_X => Some((Operation::Load(Register::Y), AddressingMode::ZeroPageX)),
        LDY_ABSOLUTE => Some((Operation::Load(Register::Y), AddressingMode::Absolute)),
        LDY_ABSOLUTE_X => Some((Operation::Load(Register::Y), AddressingMode::AbsoluteX)),
        STA_ZERO_PAGE => Some((Operation::Store(Register::A), AddressingMode::ZeroPage)),
        STA_ZERO_PAGE_X => Some((Operation::Store(Register::A), AddressingMode::ZeroPageX)),
        STA_ABSOLUTE => Some((Operation::Store(Register::A), AddressingMode::Absolute)),
        STA_ABSOLUTE_X => Some((Operation::Store(Register::A), AddressingMode::AbsoluteX)),
        STA_ABSOLUTE_Y => Some((Operation::Store(Register::A), AddressingMode::AbsoluteY)),
        STA_INDIRECT_X => Some((Operation::Store(Register::A), AddressingMode::IndirectX)),
        STA_INDIRECT_Y => Some((Operation::Store(Register::A), AddressingMode::IndirectY)),
        STX_ZERO_PAGE => Some((Operation::Store(Register::X), AddressingMode::ZeroPage)),
        STX_ZERO_PAGE_Y => Some((Operation::Store(Register::X), AddressingMode::ZeroPageY)),
        STX_ABSOLUTE => Some((Operation::Store(Register::X), AddressingMode::Absolute)),
        STY_ZERO_PAGE => Some((Operation::Store(Register::Y), AddressingMode::ZeroPage)),
        STY_ZERO_PAGE_X => Some((Operation::Store(Register::Y), AddressingMode::ZeroPageX)),
        STY_ABSOLUTE => Some((Operation::Store(Register::Y), AddressingMode::Absolute)),
        _ => None,
    };
    match entry {
        Some((operation, mode)) => Some(Instruction { operation, mode }),
        None => None,
    }
}

} // verus!
