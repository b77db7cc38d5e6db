//! An emulator core for an 8-bit, 16-bit-address microprocessor in the style
//! of the 6502: a 64 KiB address space, a register file with packed status
//! flags, an opcode table, and a fetch-decode-execute engine driven by a
//! cycle budget.

pub mod constants;
pub mod addressing;
pub mod cpu;
pub mod engine;
pub mod memory;
pub mod opcodes;
pub mod status;

pub use constants::{printable_char, Byte, SByte, Word, MAX_MEM};
pub use addressing::Operand;
pub use cpu::CPU;
pub use engine::UnhandledOpcode;
pub use memory::{DumpRow, Mem};
pub use opcodes::{decode, AddressingMode, Instruction, Operation, Register};
