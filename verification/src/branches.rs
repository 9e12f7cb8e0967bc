use crate::execute::{effect, effect_branch, signed8, step_spec, Machine};
use crate::instruction::{instruction, Instr, Mode, Op};
use crate::reg::{flag, Reg, FLAG_C, FLAG_N, FLAG_V, FLAG_Z};
use crate::util::{hi_byte, wrap16};
use vstd::prelude::*;

verus! {

/// Whether `opcode` is one of the eight conditional branches: its low five
/// bits are `1 0000`.
pub open spec fn is_branch_opcode(opcode: u8) -> bool {
    opcode % 32 == 0x10
}

/// The flag that a branch opcode tests, picked by its two top bits: N, V, C,
/// then Z.
pub open spec fn tested_flag(opcode: u8) -> u8 {
    if opcode < 0x40 {
        FLAG_N
    } else if opcode < 0x80 {
        FLAG_V
    } else if opcode < 0xc0 {
        FLAG_C
    } else {
        FLAG_Z
    }
}

/// Whether the branch at `opcode` is taken with flags `p`: bit 5 of the
/// opcode gives the value that the tested flag must have.
pub open spec fn opcode_branches(opcode: u8, p: u8) -> bool {
    flag(p, tested_flag(opcode)) == (opcode % 64 >= 32)
}

proof fn lemma_step_branch(m: Machine, op: Op)
    requires
        instruction(m.mem[m.reg.pc as int]) == Some(Instr { op, mode: Mode::Rel, cycles: 2 }),
        op == Op::Bpl || op == Op::Bmi || op == Op::Bvc || op == Op::Bvs || op == Op::Bcc || op
            == Op::Bcs || op == Op::Bne || op == Op::Beq,
    ensures
        ({
            let pc = m.reg.pc;
            let next = wrap16(pc + 2);
            let target = wrap16(pc + 2 + signed8(m.mem[wrap16(pc + 1) as int]));
            let advanced = Machine { reg: Reg { pc: next, ..m.reg }, mem: m.mem };
            let (after, extra) = effect_branch(op, advanced, target);
            step_spec(m) == (after, 2 + extra)
        }),
{
    let pc = m.reg.pc;
    let next = wrap16(pc + 2);
    let target = wrap16(pc + 2 + signed8(m.mem[wrap16(pc + 1) as int]));
    let advanced = Machine { reg: Reg { pc: next, ..m.reg }, mem: m.mem };
    assert(effect(op, Mode::Rel, advanced, target) == effect_branch(op, advanced, target)) by {
        reveal(effect);
    }
}

/// A conditional branch tests one flag, picked by the two top bits of its
/// opcode (BPL/BMI: N, BVC/BVS: V, BCC/BCS: C, BNE/BEQ: Z), against bit 5 of
/// the opcode: BPL, BVC, BCC and BNE go when their flag is clear, BMI, BVS,
/// BCS and BEQ when it is set, so of each pair exactly one goes. A branch
/// that goes moves the program counter to the byte after the instruction
/// plus the signed offset, in 3 cycles, or 4 when that lands on another
/// page; one that does not steps over the instruction in 2 cycles. Nothing
/// else changes.
pub proof fn lemma_branch_step(m: Machine)
    requires
        is_branch_opcode(m.mem[m.reg.pc as int]),
    ensures
        ({
            let pc = m.reg.pc;
            let opcode = m.mem[pc as int];
            let next = wrap16(pc + 2);
            let target = wrap16(pc + 2 + signed8(m.mem[wrap16(pc + 1) as int]));
            let goes = opcode_branches(opcode, m.reg.p);
            &&& step_spec(m).0 == Machine {
                reg: Reg {
                    pc: if goes {
                        target
                    } else {
                        next
                    },
                    ..m.reg
                },
                mem: m.mem,
            }
            &&& step_spec(m).1 == if !goes {
                2int
            } else if hi_byte(target) != hi_byte(next) {
                4int
            } else {
                3int
            }
        }),
{
    let opcode = m.mem[m.reg.pc as int];
    if opcode == 0x10 {
        assert(instruction(0x10) == Some(Instr { op: Op::Bpl, mode: Mode::Rel, cycles: 2 })) by {
            reveal(instruction);
        }
        lemma_step_branch(m, Op::Bpl);
    } else if opcode == 0x30 {
        assert(instruction(0x30) == Some(Instr { op: Op::Bmi, mode: Mode::Rel, cycles: 2 })) by {
            reveal(instruction);
        }
        lemma_step_branch(m, Op::Bmi);
    } else if opcode == 0x50 {
        assert(instruction(0x50) == Some(Instr { op: Op::Bvc, mode: Mode::Rel, cycles: 2 })) by {
            reveal(instruction);
        }
        lemma_step_branch(m, Op::Bvc);
    } else if opcode == 0x70 {
        assert(instruction(0x70) == Some(Instr { op: Op::Bvs, mode: Mode::Rel, cycles: 2 })) by {
            reveal(instruction);
        }
        lemma_step_branch(m, Op::Bvs);
    } else if opcode == 0x90 {
        assert(instruction(0x90) == Some(Instr { op: Op::Bcc, mode: Mode::Rel, cycles: 2 })) by {
            reveal(instruction);
        }
        lemma_step_branch(m, Op::Bcc);
    } else if opcode == 0xb0 {
        assert(instruction(0xb0) == Some(Instr { op: Op::Bcs, mode: Mode::Rel, cycles: 2 })) by {
            reveal(instruction);
        }
        lemma_step_branch(m, Op::Bcs);
    } else if opcode == 0xd0 {
        assert(instruction(0xd0) == Some(Instr { op: Op::Bne, mode: Mode::Rel, cycles: 2 })) by {
            reveal(instruction);
        }
        lemma_step_branch(m, Op::Bne);
    } else {
        assert(opcode == 0xf0);
        assert(instruction(0xf0) == Some(Instr { op: Op::Beq, mode: Mode::Rel, cycles: 2 })) by {
            reveal(instruction);
        }
        lemma_step_branch(m, Op::Beq);
    }
}

} // verus!
