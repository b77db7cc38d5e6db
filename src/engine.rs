use vstd::prelude::*;

use crate::addressing::{resolve, Operand};
use crate::constants::{Byte, Word};
use crate::cpu::{loaded, register_value, wrap16, CPU};
use crate::memory::Mem;
use crate::opcodes::{decode, instruction_of, Operation};

verus! {

/// An opcode that the table does not hold, and where it was fetched.
#[derive(Debug, Clone, Copy, PartialEq, Eq, Structural)]
pub struct UnhandledOpcode {
    /// Where the opcode was fetched.
    pub address: Word,
    /// The opcode byte.
    pub opcode: Byte,
}

/// One instruction from `cpu` and `mem`: the registers and memory after
/// it, and the cycles it took. An opcode that the table does not hold
/// costs its fetch and nothing else.
pub open spec fn step_result(cpu: CPU, mem: Seq<Byte>) -> (CPU, Seq<Byte>, int) {
    let fetched = CPU { pc: wrap16(cpu.pc + 1), ..cpu };
    match instruction_of(mem[cpu.pc as int]) {
        None => (fetched, mem, 1),
        Some(ins) => {
            let (operand, pc, cost) = resolve(fetched, mem, ins.mode);
            let moved = CPU { pc, ..fetched };
            match (ins.operation, operand) {
                (Operation::Load(r), Operand::Value(v)) => (loaded(moved, r, v), mem, 1 + cost),
                (Operation::Load(r), Operand::Address(addr)) => (
                    loaded(moved, r, mem[addr as int]),
                    mem,
                    2 + cost,
                ),
                (Operation::Store(r), Operand::Address(addr)) => (
                    moved,
                    mem.update(addr as int, register_value(moved, r)),
                    2 + cost,
                ),
                (Operation::Store(_), Operand::Value(_)) => (moved, mem, 1 + cost),
            }
        },
    }
}

/// The diagnostic for the instruction at `cpu.pc`: the opcode, when the
/// table does not hold it.
pub open spec fn unhandled_at(cpu: CPU, mem: Seq<Byte>) -> Option<UnhandledOpcode> {
    let opcode = mem[cpu.pc as int];
    if instruction_of(opcode) is None {
        Some(UnhandledOpcode { address: cpu.pc, opcode })
    } else {
        None
    }
}

/// Every instruction takes at least the cycle of its opcode fetch and at
/// most five.
pub proof fn lemma_step_cost(cpu: CPU, mem: Seq<Byte>)
    ensures
        1 <= step_result(cpu, mem).2 <= 5,
{
}

/// A run with a budget of `budget` cycles: instructions are executed while
/// the budget is positive, each one to its end. Gives the registers, the
/// memory, the budget left (below zero when the last instruction overshot)
/// and the unhandled opcodes met, in order.
pub open spec fn run(cpu: CPU, mem: Seq<Byte>, budget: int) -> (CPU, Seq<Byte>, int, Seq<
    UnhandledOpcode,
>)
    decreases
            if budget > 0 {
                budget
            } else {
                0
            },
{
    if budget <= 0 {
        (cpu, mem, budget, seq![])
    } else {
        let (cpu2, mem2, cost) = step_result(cpu, mem);
        proof {
            lemma_step_cost(cpu, mem);
        }
        let rest = run(cpu2, mem2, budget - cost);
        let here = match unhandled_at(cpu, mem) {
            Some(u) => seq![u],
            None => seq![],
        };
        (rest.0, rest.1, rest.2, here + rest.3)
    }
}

/// A run in strict mode: as `run`, but the first opcode that the table does
/// not hold ends it, once fetched. Gives the registers, the memory, the
/// budget left and that opcode, if one ended the run.
pub open spec fn run_strict(cpu: CPU, mem: Seq<Byte>, budget: int) -> (CPU, Seq<Byte>, int, Option<
    UnhandledOpcode,
>)
    decreases
            if budget > 0 {
                budget
            } else {
                0
            },
{
    if budget <= 0 {
        (cpu, mem, budget, None)
    } else {
        let (cpu2, mem2, cost) = step_result(cpu, mem);
        proof {
            lemma_step_cost(cpu, mem);
        }
        match unhandled_at(cpu, mem) {
            Some(u) => (cpu2, mem2, budget - cost, Some(u)),
            None => run_strict(cpu2, mem2, budget - cost),
        }
    }
}

impl CPU {
    /// Executes the instruction at the program counter. Returns the opcode
    /// and its address when the table does not hold it; the program counter
    /// has then moved past the opcode alone.
    pub fn step(&mut self, cycles: &mut i32, mem: &mut Mem) -> (r: Option<UnhandledOpcode>)
        requires
            old(mem).wf(),
            *old(cycles) > i32::MIN + 4,
        ensures
            final(mem).wf(),
            ({
                let (cpu, m, cost) = step_result(*old(self), old(mem)@);
                &&& *final(self) == cpu
                &&& final(mem)@ == m
                &&& *final(cycles) == *old(cycles) - cost
            }),
            r == unhandled_at(*old(self), old(mem)@),
    {
        let address: Word = self.pc;
        let opcode: Byte = self.fetch_byte(cycles, mem);
        match decode(opcode) {
            None => Some(UnhandledOpcode { address, opcode }),
            Some(ins) => {
                let operand: Operand = self.resolve_operand(ins.mode, cycles, mem);
                match (ins.operation, operand) {
                    (Operation::Load(r), Operand::Value(v)) => {
                        self.load(r, v);
                    },
                    (Operation::Load(r), Operand::Address(addr)) => {
                        let v: Byte = self.read_byte(cycles, addr, mem);
                        self.load(r, v);
                    },
                    (Operation::Store(r), Operand::Address(addr)) => {
                        let v: Byte = self.register(r);
                        self.write_byte(v, cycles, addr, mem);
                    },
                    (Operation::Store(_), Operand::Value(_)) => {},
                }
                None
            },
        }
    }

    /// Runs instructions while the cycle budget is positive. Each opcode
    /// fetch, operand fetch, memory read and memory write takes one cycle,
    /// deducted once it is done; an instruction that has started always
    /// finishes, so the budget may end below zero. Returns the opcodes met
    /// that the table does not hold, in order; each was skipped alone.
    pub fn execute(&mut self, cycles: &mut i32, mem: &mut Mem) -> (log: Vec<UnhandledOpcode>)
        requires
            old(mem).wf(),
        ensures
            final(mem).wf(),
            ({
                let (cpu, m, left, unhandled) = run(*old(self), old(mem)@, *old(cycles) as int);
                &&& *final(self) == cpu
                &&& final(mem)@ == m
                &&& *final(cycles) == left
                &&& log@ == unhandled
            }),
    {
        let ghost total = run(*self, mem@, *cycles as int);
        let mut log: Vec<UnhandledOpcode> = Vec::new();
        while *cycles > 0
            invariant
                mem.wf(),
                ({
                    let rest = run(*self, mem@, *cycles as int);
                    &&& total.0 == rest.0
                    &&& total.1 == rest.1
                    &&& total.2 == rest.2
                    &&& total.3 == log@ + rest.3
                }),
            decreases
                    if *cycles > 0 {
                        *cycles as int
                    } else {
                        0
                    },
        {
            proof {
                lemma_step_cost(*self, mem@);
            }
            let ghost here = unhandled_at(*self, mem@);
            let ghost before = log@;
            match self.step(cycles, mem) {
                Some(u) => log.push(u),
                None => {},
            }
            proof {
                match here {
                    Some(u) => assert(log@ == before + seq![u]),
                    None => assert(log@ == before + Seq::<UnhandledOpcode>::empty()),
                }
            }
        }
        log
    }

    /// Runs as `execute` does, but stops after fetching the first opcode
    /// that the table does not hold, and returns it as the error.
    pub fn execute_strict(&mut self, cycles: &mut i32, mem: &mut Mem) -> (r: Result<
        (),
        UnhandledOpcode,
    >)
        requires
            old(mem).wf(),
        ensures
            final(mem).wf(),
            ({
                let (cpu, m, left, stop) = run_strict(*old(self), old(mem)@, *old(cycles) as int);
                &&& *final(self) == cpu
                &&& final(mem)@ == m
                &&& *final(cycles) == left
                &&& r == match stop {
                    Some(u) => Err(u),
                    None => Ok(()),
                }
            }),
    {
        let ghost total = run_strict(*self, mem@, *cycles as int);
        let mut stop: Option<UnhandledOpcode> = None;
        while *cycles > 0 && stop.is_none()
            invariant
                mem.wf(),
                stop is None ==> run_strict(*self, mem@, *cycles as int) == total,
                stop is Some ==> total == (*self, mem@, *cycles as int, stop),
            decreases
                    if *cycles > 0 && stop is None {
                        *cycles as int
                    } else {
                        0
                    },
        {
            proof {
                lemma_step_cost(*self, mem@);
            }
            stop = self.step(cycles, mem);
        }
        match stop {
            Some(u) => Err(u),
            None => Ok(()),
        }
    }
}

} // verus!
