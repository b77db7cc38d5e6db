use emu6502::cpu::{RESET_VECTOR, STACK_RESET};
use emu6502::opcodes::{
    AND_IMMEDIATE, LDA_ABSOLUTE, LDA_ABSOLUTE_X, LDA_ABSOLUTE_Y, LDA_IMMEDIATE, LDA_INDIRECT_X,
    LDA_INDIRECT_Y, LDA_ZERO_PAGE, LDA_ZERO_PAGE_X, LDX_IMMEDIATE, LDX_ZERO_PAGE_Y, LDY_ABSOLUTE_X,
    LDY_IMMEDIATE, STA_ABSOLUTE, STA_INDIRECT_Y, STA_ZERO_PAGE, STX_ZERO_PAGE, STY_ABSOLUTE,
};
use emu6502::{
    decode, AddressingMode, Instruction, Mem, Operand, Operation, Register, UnhandledOpcode, CPU,
};

fn ready() -> (CPU, Mem) {
    let mut mem = Mem::new();
    let mut cpu = CPU::new();
    cpu.reset(&mut mem);
    (cpu, mem)
}

fn load(mem: &mut Mem, at: u32, bytes: &[u8]) {
    for (k, b) in bytes.iter().enumerate() {
        assert_eq!(mem.write(at + k as u32, *b), Some(*b));
    }
}

fn flags(cpu: &CPU) -> [bool; 7] {
    [cpu.c, cpu.z, cpu.i, cpu.d, cpu.b, cpu.v, cpu.n]
}

#[test]
fn new_cpu_is_zeroed() {
    let cpu = CPU::new();
    assert_eq!(cpu.get_pc(), 0);
    assert_eq!(cpu.get_sp(), 0);
    assert_eq!((cpu.get_a(), cpu.get_x(), cpu.get_y()), (0, 0, 0));
    assert_eq!(flags(&cpu), [false; 7]);
}

#[test]
fn reset_sets_vector_stack_and_clears_flags() {
    let mut mem = Mem::new();
    mem.write(0x1234, 0x56);
    let mut cpu = CPU::new();
    cpu.set_status(0xFF);
    cpu.set_a(9);
    cpu.set_x(8);
    cpu.set_y(7);
    cpu.reset(&mut mem);
    assert_eq!(cpu.get_pc(), 0xFFFC);
    assert_eq!(cpu.get_sp(), 0x0100);
    assert_eq!(RESET_VECTOR, 0xFFFC);
    assert_eq!(STACK_RESET, 0x0100);
    assert_eq!((cpu.get_a(), cpu.get_x(), cpu.get_y()), (0, 0, 0));
    assert_eq!(flags(&cpu), [false; 7]);
    assert_eq!(cpu.get_status(), 0x20);
    assert_eq!(mem.read(0x1234), Some(0));
}

#[test]
fn setters_derive_zero_and_negative_for_every_value() {
    let mut cpu = CPU::new();
    for v in 0..=255u8 {
        cpu.set_a(v);
        assert_eq!(cpu.get_a(), v);
        assert_eq!(cpu.z, v == 0);
        assert_eq!(cpu.n, (v & 0x80) != 0);
        cpu.set_x(v);
        assert_eq!(cpu.get_x(), v);
        assert_eq!(cpu.z, v == 0);
        assert_eq!(cpu.n, (v & 0x80) != 0);
        cpu.set_y(v);
        assert_eq!(cpu.get_y(), v);
        assert_eq!(cpu.z, v == 0);
        assert_eq!(cpu.n, (v & 0x80) != 0);
    }
}

#[test]
fn setters_leave_other_flags_alone() {
    let mut cpu = CPU::new();
    cpu.set_status(0b0100_1101);
    cpu.set_a(0);
    assert!(cpu.c && cpu.i && cpu.d && cpu.v && !cpu.b);
    assert!(cpu.z && !cpu.n);
}

#[test]
fn status_round_trips_with_unused_bit_set() {
    let mut cpu = CPU::new();
    for b in 0..=255u8 {
        cpu.set_status(b);
        assert_eq!(cpu.get_status(), b | 0x20);
    }
    cpu.set_status(0x00);
    assert_eq!(cpu.get_status(), 0x20);
    cpu.set_status(0xDF);
    assert_eq!(cpu.get_status(), 0xFF);
}

#[test]
fn status_bit_order() {
    let mut cpu = CPU::new();
    cpu.set_status(0x01);
    assert_eq!(flags(&cpu), [true, false, false, false, false, false, false]);
    cpu.set_status(0x02);
    assert_eq!(flags(&cpu), [false, true, false, false, false, false, false]);
    cpu.set_status(0x04);
    assert_eq!(flags(&cpu), [false, false, true, false, false, false, false]);
    cpu.set_status(0x08);
    assert_eq!(flags(&cpu), [false, false, false, true, false, false, false]);
    cpu.set_status(0x10);
    assert_eq!(flags(&cpu), [false, false, false, false, true, false, false]);
    cpu.set_status(0x20);
    assert_eq!(flags(&cpu), [false; 7]);
    cpu.set_status(0x40);
    assert_eq!(flags(&cpu), [false, false, false, false, false, true, false]);
    cpu.set_status(0x80);
    assert_eq!(flags(&cpu), [false, false, false, false, false, false, true]);
}

#[test]
fn load_immediate_scenario() {
    let (mut cpu, mut mem) = ready();
    load(&mut mem, 0xFFFC, &[LDA_IMMEDIATE, 0x42]);
    assert_eq!(LDA_IMMEDIATE, 0xA9);
    let mut cycles: i32 = 2;
    let log = cpu.execute(&mut cycles, &mut mem);
    assert!(log.is_empty());
    assert_eq!(cpu.get_a(), 0x42);
    assert!(!cpu.z);
    assert!(!cpu.n);
    assert_eq!(cpu.get_pc(), 0xFFFE);
    assert_eq!(cycles, 0);
}

#[test]
fn load_immediate_zero_sets_zero_flag() {
    let (mut cpu, mut mem) = ready();
    load(&mut mem, 0xFFFC, &[0xA9, 0x00]);
    let mut cycles: i32 = 2;
    cpu.execute(&mut cycles, &mut mem);
    assert_eq!(cpu.get_a(), 0x00);
    assert!(cpu.z);
    assert!(!cpu.n);
}

#[test]
fn load_immediate_negative_sets_negative_flag() {
    let (mut cpu, mut mem) = ready();
    load(&mut mem, 0xFFFC, &[0xA9, 0x80]);
    let mut cycles: i32 = 2;
    cpu.execute(&mut cycles, &mut mem);
    assert_eq!(cpu.get_a(), 0x80);
    assert!(!cpu.z);
    assert!(cpu.n);
}

#[test]
fn store_zero_page_scenario() {
    let (mut cpu, mut mem) = ready();
    cpu.set_a(0x37);
    let before = cpu.get_status();
    load(&mut mem, 0xFFFC, &[STA_ZERO_PAGE, 0x10]);
    assert_eq!(STA_ZERO_PAGE, 0x85);
    let mut cycles: i32 = 3;
    let log = cpu.execute(&mut cycles, &mut mem);
    assert!(log.is_empty());
    assert_eq!(mem.read(0x0010), Some(0x37));
    assert_eq!(cpu.get_status(), before);
    assert_eq!(cpu.get_pc(), 0xFFFE);
    assert_eq!(cycles, 0);
}

#[test]
fn store_changes_no_flag_even_when_value_is_zero() {
    let (mut cpu, mut mem) = ready();
    cpu.set_status(0b1100_0011);
    mem.write(0x0010, 0x77);
    load(&mut mem, 0xFFFC, &[STA_ZERO_PAGE, 0x10]);
    let mut cycles: i32 = 3;
    cpu.execute(&mut cycles, &mut mem);
    assert_eq!(mem.read(0x10), Some(0));
    assert_eq!(cpu.get_status(), 0b1110_0011);
}

#[test]
fn budget_is_a_minimum_quota() {
    // A zero-page load takes three cycles; with two it still finishes.
    let (mut cpu, mut mem) = ready();
    mem.write(0x0033, 0x99);
    load(&mut mem, 0xFFFC, &[LDA_ZERO_PAGE, 0x33]);
    let mut cycles: i32 = 2;
    cpu.execute(&mut cycles, &mut mem);
    assert_eq!(cpu.get_a(), 0x99);
    assert!(cpu.n);
    assert_eq!(cycles, -1);
    assert_eq!(cpu.get_pc(), 0xFFFE);
}

#[test]
fn zero_or_negative_budget_runs_nothing() {
    let (mut cpu, mut mem) = ready();
    load(&mut mem, 0xFFFC, &[LDA_IMMEDIATE, 0x42]);
    for budget in [0, -1, i32::MIN] {
        let mut cycles: i32 = budget;
        let log = cpu.execute(&mut cycles, &mut mem);
        assert!(log.is_empty());
        assert_eq!(cycles, budget);
        assert_eq!(cpu.get_pc(), 0xFFFC);
        assert_eq!(cpu.get_a(), 0);
    }
}

#[test]
fn unhandled_opcode_is_reported_and_skipped_alone() {
    let (mut cpu, mut mem) = ready();
    cpu.set_pc(0x0200);
    load(&mut mem, 0x0200, &[AND_IMMEDIATE, LDA_IMMEDIATE, 0x05]);
    let mut cycles: i32 = 3;
    let log = cpu.execute(&mut cycles, &mut mem);
    assert_eq!(log, vec![UnhandledOpcode { address: 0x0200, opcode: 0x29 }]);
    assert_eq!(cpu.get_a(), 0x05);
    assert_eq!(cpu.get_pc(), 0x0203);
    assert_eq!(cycles, 0);
}

#[test]
fn unhandled_opcode_operand_is_read_as_an_opcode() {
    let (mut cpu, mut mem) = ready();
    cpu.set_pc(0x0300);
    // 0xFF is not in the table; its "operand" 0x02 is not either.
    load(&mut mem, 0x0300, &[0xFF, 0x02]);
    let mut cycles: i32 = 2;
    let log = cpu.execute(&mut cycles, &mut mem);
    assert_eq!(
        log,
        vec![
            UnhandledOpcode { address: 0x0300, opcode: 0xFF },
            UnhandledOpcode { address: 0x0301, opcode: 0x02 },
        ]
    );
    assert_eq!(cpu.get_pc(), 0x0302);
}

#[test]
fn load_in_every_addressing_mode() {
    let (mut cpu, mut mem) = ready();
    cpu.set_pc(0x0400);
    cpu.x = 0x04;
    cpu.y = 0x10;
    mem.write(0x0020, 0x11);
    mem.write(0x0024, 0x22);
    mem.write(0x1234, 0x33);
    mem.write(0x1238, 0x44);
    mem.write(0x1244, 0x55);
    // pointer at 0x0030 (0x2C + X) -> 0x5678
    mem.write(0x0030, 0x78);
    mem.write(0x0031, 0x56);
    mem.write(0x5678, 0x66);
    // pointer at 0x0040 -> 0x6000, plus Y -> 0x6010
    mem.write(0x0040, 0x00);
    mem.write(0x0041, 0x60);
    mem.write(0x6010, 0x77);
    let program = [
        LDA_ZERO_PAGE, 0x20,
        LDA_ZERO_PAGE_X, 0x20,
        LDA_ABSOLUTE, 0x34, 0x12,
        LDA_ABSOLUTE_X, 0x34, 0x12,
        LDA_ABSOLUTE_Y, 0x34, 0x12,
        LDA_INDIRECT_X, 0x2C,
        LDA_INDIRECT_Y, 0x40,
    ];
    load(&mut mem, 0x0400, &program);
    let expected: [(u8, i32); 7] =
        [(0x11, 3), (0x22, 3), (0x33, 4), (0x44, 4), (0x55, 4), (0x66, 5), (0x77, 5)];
    for (value, cost) in expected {
        let mut cycles: i32 = 1;
        cpu.execute(&mut cycles, &mut mem);
        assert_eq!(cpu.get_a(), value);
        assert_eq!(cycles, 1 - cost);
    }
    assert_eq!(cpu.get_pc(), 0x0400 + program.len() as u16);
}

#[test]
fn zero_page_indexing_wraps_within_the_zero_page() {
    let (mut cpu, mut mem) = ready();
    cpu.set_pc(0x0500);
    cpu.x = 0x10;
    cpu.y = 0x20;
    mem.write(0x0008, 0xAB);
    mem.write(0x0010, 0xCD);
    load(&mut mem, 0x0500, &[LDA_ZERO_PAGE_X, 0xF8, LDX_ZERO_PAGE_Y, 0xF0]);
    let mut cycles: i32 = 1;
    cpu.execute(&mut cycles, &mut mem);
    assert_eq!(cpu.get_a(), 0xAB);
    let mut cycles: i32 = 1;
    cpu.execute(&mut cycles, &mut mem);
    assert_eq!(cpu.get_x(), 0xCD);
}

#[test]
fn indirect_pointer_high_byte_wraps_within_the_zero_page() {
    let (mut cpu, mut mem) = ready();
    cpu.set_pc(0x0600);
    mem.write(0x00FF, 0x34);
    mem.write(0x0000, 0x12);
    mem.write(0x1234, 0x5A);
    load(&mut mem, 0x0600, &[LDA_INDIRECT_X, 0xFF]);
    let mut cycles: i32 = 1;
    cpu.execute(&mut cycles, &mut mem);
    assert_eq!(cpu.get_a(), 0x5A);
}

#[test]
fn absolute_indexing_wraps_around_the_address_space() {
    let (mut cpu, mut mem) = ready();
    cpu.set_pc(0x0700);
    cpu.y = 0x02;
    mem.write(0x0001, 0x3C);
    load(&mut mem, 0x0700, &[LDA_ABSOLUTE_Y, 0xFF, 0xFF]);
    let mut cycles: i32 = 1;
    cpu.execute(&mut cycles, &mut mem);
    assert_eq!(cpu.get_a(), 0x3C);
}

#[test]
fn index_register_loads_and_stores() {
    let (mut cpu, mut mem) = ready();
    cpu.set_pc(0x0800);
    mem.write(0x2010, 0xF0);
    load(
        &mut mem,
        0x0800,
        &[
            LDX_IMMEDIATE, 0x10,
            LDY_IMMEDIATE, 0x00,
            LDY_ABSOLUTE_X, 0x00, 0x20,
            STX_ZERO_PAGE, 0x50,
            STY_ABSOLUTE, 0x00, 0x30,
        ],
    );
    let mut cycles: i32 = 2;
    cpu.execute(&mut cycles, &mut mem);
    assert_eq!(cpu.get_x(), 0x10);
    assert!(!cpu.z);
    let mut cycles: i32 = 2;
    cpu.execute(&mut cycles, &mut mem);
    assert!(cpu.z);
    let mut cycles: i32 = 4;
    cpu.execute(&mut cycles, &mut mem);
    assert_eq!(cpu.get_y(), 0xF0);
    assert!(cpu.n && !cpu.z);
    let mut cycles: i32 = 7;
    cpu.execute(&mut cycles, &mut mem);
    assert_eq!(mem.read(0x0050), Some(0x10));
    assert_eq!(mem.read(0x3000), Some(0xF0));
    assert_eq!(cycles, 0);
}

#[test]
fn store_indirect_indexed() {
    let (mut cpu, mut mem) = ready();
    cpu.set_pc(0x0900);
    cpu.a = 0xE1;
    cpu.y = 0x05;
    mem.write(0x0060, 0x00);
    mem.write(0x0061, 0x40);
    load(&mut mem, 0x0900, &[STA_INDIRECT_Y, 0x60, STA_ABSOLUTE, 0x00, 0x41]);
    let mut cycles: i32 = 9;
    cpu.execute(&mut cycles, &mut mem);
    assert_eq!(mem.read(0x4005), Some(0xE1));
    assert_eq!(mem.read(0x4100), Some(0xE1));
    assert_eq!(cycles, 0);
}

#[test]
fn program_counter_wraps_past_the_top() {
    let (mut cpu, mut mem) = ready();
    cpu.set_pc(0xFFFF);
    load(&mut mem, 0xFFFF, &[LDA_IMMEDIATE]);
    mem.write(0x0000, 0x21);
    let mut cycles: i32 = 2;
    cpu.execute(&mut cycles, &mut mem);
    assert_eq!(cpu.get_a(), 0x21);
    assert_eq!(cpu.get_pc(), 0x0001);
}

#[test]
fn step_reports_unhandled_opcode() {
    let (mut cpu, mut mem) = ready();
    mem.write(0xFFFC, 0x02);
    let mut cycles: i32 = 10;
    let r = cpu.step(&mut cycles, &mut mem);
    assert_eq!(r, Some(UnhandledOpcode { address: 0xFFFC, opcode: 0x02 }));
    assert_eq!(cycles, 9);
    assert_eq!(cpu.get_pc(), 0xFFFD);
}

#[test]
fn decode_table_entries() {
    assert_eq!(
        decode(0xA9),
        Some(Instruction { operation: Operation::Load(Register::A), mode: AddressingMode::Immediate })
    );
    assert_eq!(
        decode(0xA5),
        Some(Instruction { operation: Operation::Load(Register::A), mode: AddressingMode::ZeroPage })
    );
    assert_eq!(
        decode(0x85),
        Some(Instruction { operation: Operation::Store(Register::A), mode: AddressingMode::ZeroPage })
    );
    assert_eq!(
        decode(0xB6),
        Some(Instruction { operation: Operation::Load(Register::X), mode: AddressingMode::ZeroPageY })
    );
    assert_eq!(
        decode(0x91),
        Some(Instruction { operation: Operation::Store(Register::A), mode: AddressingMode::IndirectY })
    );
    assert_eq!(
        decode(0x8C),
        Some(Instruction { operation: Operation::Store(Register::Y), mode: AddressingMode::Absolute })
    );
    assert_eq!(decode(0x29), None);
    assert_eq!(decode(0x00), None);
    let entries = (0..=255u8).filter(|op| decode(*op).is_some()).count();
    assert_eq!(entries, 8 + 5 + 5 + 7 + 3 + 3);
    let stores_immediate = (0..=255u8).any(|op| {
        matches!(
            decode(op),
            Some(Instruction { operation: Operation::Store(_), mode: AddressingMode::Immediate })
        )
    });
    assert!(!stores_immediate);
}

#[test]
fn resolve_operand_charges_per_byte() {
    let (mut cpu, mut mem) = ready();
    load(&mut mem, 0xFFFC, &[0x34, 0x12]);
    let mut cycles: i32 = 10;
    let r = cpu.resolve_operand(AddressingMode::Absolute, &mut cycles, &mem);
    assert_eq!(r, Operand::Address(0x1234));
    assert_eq!(cycles, 8);
    assert_eq!(cpu.get_pc(), 0xFFFE);
    let mut cycles: i32 = 10;
    cpu.set_pc(0xFFFC);
    let r = cpu.resolve_operand(AddressingMode::Immediate, &mut cycles, &mem);
    assert_eq!(r, Operand::Value(0x34));
    assert_eq!(cycles, 9);
}

#[test]
fn fetch_and_read_helpers() {
    let (mut cpu, mut mem) = ready();
    cpu.set_pc(0x0200);
    load(&mut mem, 0x0200, &[0xCD, 0xAB, 0x41]);
    let mut cycles: i32 = 10;
    assert_eq!(cpu.fetch_word(&mut cycles, &mem), 0xABCD);
    assert_eq!(cycles, 8);
    assert_eq!(cpu.fetch_sbyte(&mut cycles, &mem).display_char(), 'A');
    assert_eq!(cpu.get_pc(), 0x0203);
    assert_eq!(cycles, 7);
    mem.write(0x00FF, 0x01);
    mem.write(0x0000, 0x02);
    assert_eq!(cpu.read_word(&mut cycles, 0xFF, &mem), 0x0201);
    assert_eq!(cycles, 5);
    assert_eq!(cpu.read_byte(&mut cycles, 0x0202, &mem), 0x41);
    assert_eq!(cycles, 4);
    assert_eq!(cpu.get_pc(), 0x0203);
}

#[test]
fn write_helpers() {
    let (mut cpu, mut mem) = ready();
    let mut cycles: i32 = 5;
    cpu.write_byte(0x12, &mut cycles, 0x3000, &mut mem);
    cpu.write_word(0xBEEF, &mut cycles, 0xFFFF, &mut mem);
    assert_eq!(mem.read(0x3000), Some(0x12));
    assert_eq!(mem.read(0xFFFF), Some(0xEF));
    assert_eq!(mem.read(0x0000), Some(0xBE));
    assert_eq!(cycles, 2);
}

#[test]
fn push_word_writes_high_byte_first() {
    let (mut cpu, mut mem) = ready();
    cpu.set_sp(0x01FF);
    assert_eq!(cpu.sp_to_address(), 0x01FF);
    let mut cycles: i32 = 2;
    cpu.push_word_to_stack(0x1234, &mut cycles, &mut mem);
    assert_eq!(mem.read(0x01FF), Some(0x12));
    assert_eq!(mem.read(0x01FE), Some(0x34));
    assert_eq!(cpu.get_sp(), 0x01FD);
    assert_eq!(cycles, 0);
}

#[test]
fn stack_wraps_within_its_page() {
    let (mut cpu, mut mem) = ready();
    assert_eq!(cpu.sp_to_address(), 0x0100);
    let mut cycles: i32 = 2;
    cpu.push_word_to_stack(0xA1B2, &mut cycles, &mut mem);
    assert_eq!(mem.read(0x0100), Some(0xA1));
    assert_eq!(mem.read(0x01FF), Some(0xB2));
    assert_eq!(cpu.get_sp(), 0x00FE);
    assert_eq!(cpu.sp_to_address(), 0x01FE);
}

#[test]
fn push_program_counter_variants() {
    let (mut cpu, mut mem) = ready();
    cpu.set_sp(0x01FF);
    cpu.set_pc(0x8000);
    let mut cycles: i32 = 6;
    cpu.push_pc_to_stack(&mut cycles, &mut mem);
    cpu.push_pc_minus_one_to_stack(&mut cycles, &mut mem);
    cpu.push_pc_plus_one_to_stack(&mut cycles, &mut mem);
    assert_eq!(mem.read(0x01FF), Some(0x80));
    assert_eq!(mem.read(0x01FE), Some(0x00));
    assert_eq!(mem.read(0x01FD), Some(0x7F));
    assert_eq!(mem.read(0x01FC), Some(0xFF));
    assert_eq!(mem.read(0x01FB), Some(0x80));
    assert_eq!(mem.read(0x01FA), Some(0x01));
    assert_eq!(cpu.get_sp(), 0x01F9);
    assert_eq!(cpu.get_pc(), 0x8000);
    assert_eq!(cycles, 0);
}

#[test]
fn load_helper_sets_register_and_flags() {
    let mut cpu = CPU::new();
    cpu.load(Register::Y, 0xC0);
    assert_eq!(cpu.register(Register::Y), 0xC0);
    assert!(cpu.n && !cpu.z);
    cpu.set_zero_negative(0);
    assert!(cpu.z && !cpu.n);
    assert_eq!(cpu.get_y(), 0xC0);
}

#[test]
fn strict_mode_stops_at_unhandled_opcode() {
    let (mut cpu, mut mem) = ready();
    cpu.set_pc(0x0200);
    load(&mut mem, 0x0200, &[LDA_IMMEDIATE, 0x07, 0x02, LDA_IMMEDIATE, 0x09]);
    let mut cycles: i32 = 10;
    let r = cpu.execute_strict(&mut cycles, &mut mem);
    assert_eq!(r, Err(UnhandledOpcode { address: 0x0202, opcode: 0x02 }));
    assert_eq!(cpu.get_a(), 0x07);
    assert_eq!(cpu.get_pc(), 0x0203);
    assert_eq!(cycles, 7);
}

#[test]
fn strict_mode_without_unhandled_opcode_runs_out_the_budget() {
    let (mut cpu, mut mem) = ready();
    load(&mut mem, 0xFFFC, &[LDA_IMMEDIATE, 0x42]);
    let mut cycles: i32 = 2;
    assert_eq!(cpu.execute_strict(&mut cycles, &mut mem), Ok(()));
    assert_eq!(cpu.get_a(), 0x42);
    assert_eq!(cycles, 0);
}
