use crate::execute::{effect, effect_control, operand_address, pulled_p, step_spec, word_at, Machine, IRQ};
use crate::instruction::{instruction, Instr, Mode, Op};
use crate::reg::{with_nz, Reg, FLAG_ALWAYS_ONE, FLAG_B, FLAG_I};
use crate::util::{word_of, wrap16, wrap8};
use crate::vm_state::{pushed, pushed_word, stack_slot, top_word};
use vstd::prelude::*;

verus! {

proof fn lemma_wrap16_around(pc: u16)
    ensures
        wrap16(wrap16(pc + 3) - 1) == wrap16(pc + 2),
        wrap16(wrap16(pc + 2) + 1) == wrap16(pc + 3),
{
    if pc + 3 < 65536 {
    } else if pc + 3 == 65536 {
    } else if pc + 3 == 65537 {
    } else {
    }
}

/// JSR: pushes the address of its last byte and jumps to its operand.
proof fn lemma_step_jsr(m: Machine)
    requires
        m.mem[m.reg.pc as int] == 0x20,
    ensures
        step_spec(m) == (
            Machine {
                reg: Reg {
                    pc: word_of(m.mem[wrap16(m.reg.pc + 2) as int], m.mem[wrap16(m.reg.pc + 1) as int]),
                    sp: wrap8(m.reg.sp - 2),
                    ..m.reg
                },
                mem: pushed_word(m.mem, m.reg.sp, wrap16(m.reg.pc + 2)),
            },
            6int,
        ),
{
    let jsr = Instr { op: Op::Jsr, mode: Mode::Abs, cycles: 6 };
    assert(instruction(0x20) == Some(jsr)) by {
        reveal(instruction);
    }
    let (addr, crossed) = operand_address(m.reg, m.mem, Mode::Abs);
    let advanced = Machine { reg: Reg { pc: wrap16(m.reg.pc + 3), ..m.reg }, mem: m.mem };
    assert(effect(Op::Jsr, Mode::Abs, advanced, addr) == (effect_control(Op::Jsr, advanced, addr), 0int)) by {
        reveal(effect);
    }
    lemma_wrap16_around(m.reg.pc);
}

/// RTS: pulls the return address and continues at the byte after it.
proof fn lemma_step_rts(m: Machine)
    requires
        m.mem[m.reg.pc as int] == 0x60,
    ensures
        step_spec(m) == (
            Machine {
                reg: Reg { pc: wrap16(top_word(m.mem, m.reg.sp) + 1), sp: wrap8(m.reg.sp + 2), ..m.reg },
                mem: m.mem,
            },
            6int,
        ),
{
    let rts = Instr { op: Op::Rts, mode: Mode::Imp, cycles: 6 };
    assert(instruction(0x60) == Some(rts)) by {
        reveal(instruction);
    }
    let advanced = Machine { reg: Reg { pc: wrap16(m.reg.pc + 1), ..m.reg }, mem: m.mem };
    assert(effect(Op::Rts, Mode::Imp, advanced, 0) == (effect_control(Op::Rts, advanced, 0), 0int)) by {
        reveal(effect);
    }
}

/// A subroutine call followed by the return where it went continues after
/// the call: JSR at the program counter, then an RTS at its target, leaves
/// the program counter three bytes on and every other register as it was;
/// the return address (the last byte of the JSR) stays in the stack page.
pub proof fn lemma_jsr_then_rts(m: Machine)
    requires
        m.mem.len() == 0x10000,
        m.mem[m.reg.pc as int] == 0x20,
        step_spec(m).0.mem[step_spec(m).0.reg.pc as int] == 0x60,
    ensures
        step_spec(step_spec(m).0).0.reg == (Reg { pc: wrap16(m.reg.pc + 3), ..m.reg }),
        step_spec(step_spec(m).0).0.mem == pushed_word(m.mem, m.reg.sp, wrap16(m.reg.pc + 2)),
        step_spec(m).1 + step_spec(step_spec(m).0).1 == 12,
{
    lemma_step_jsr(m);
    lemma_step_rts(step_spec(m).0);
    crate::vm_state::lemma_pull_word_after_push_word(m.mem, m.reg.sp, wrap16(m.reg.pc + 2));
    lemma_wrap16_around(m.reg.pc);
}

/// BRK: pushes the address two bytes on and P with B set, sets I, and jumps
/// through the IRQ vector.
proof fn lemma_step_brk(m: Machine)
    requires
        m.mem[m.reg.pc as int] == 0x00,
    ensures
        ({
            let mem2 = pushed(
                pushed_word(m.mem, m.reg.sp, wrap16(m.reg.pc + 2)),
                wrap8(m.reg.sp - 2),
                m.reg.p | (FLAG_B | FLAG_ALWAYS_ONE),
            );
            step_spec(m) == (
                Machine {
                    reg: Reg { pc: word_at(mem2, IRQ), sp: wrap8(m.reg.sp - 3), p: m.reg.p | FLAG_I, ..m.reg },
                    mem: mem2,
                },
                7int,
            )
        }),
{
    let brk = Instr { op: Op::Brk, mode: Mode::Imp, cycles: 7 };
    assert(instruction(0x00) == Some(brk)) by {
        reveal(instruction);
    }
    let advanced = Machine { reg: Reg { pc: wrap16(m.reg.pc + 1), ..m.reg }, mem: m.mem };
    assert(effect(Op::Brk, Mode::Imp, advanced, 0) == (effect_control(Op::Brk, advanced, 0), 0int)) by {
        reveal(effect);
    }
    assert(wrap16(wrap16(m.reg.pc + 1) + 1) == wrap16(m.reg.pc + 2)) by {
        if m.reg.pc + 2 >= 65536 {
        }
    }
}

/// RTI: pulls P (keeping B and bit 5 as they are) and the return address.
proof fn lemma_step_rti(m: Machine)
    requires
        m.mem[m.reg.pc as int] == 0x40,
    ensures
        step_spec(m) == (
            Machine {
                reg: Reg {
                    p: pulled_p(m.reg.p, m.mem[stack_slot(wrap8(m.reg.sp + 1))]),
                    pc: top_word(m.mem, wrap8(m.reg.sp + 1)),
                    sp: wrap8(m.reg.sp + 3),
                    ..m.reg
                },
                mem: m.mem,
            },
            6int,
        ),
{
    let rti = Instr { op: Op::Rti, mode: Mode::Imp, cycles: 6 };
    assert(instruction(0x40) == Some(rti)) by {
        reveal(instruction);
    }
    let advanced = Machine { reg: Reg { pc: wrap16(m.reg.pc + 1), ..m.reg }, mem: m.mem };
    assert(effect(Op::Rti, Mode::Imp, advanced, 0) == (effect_control(Op::Rti, advanced, 0), 0int)) by {
        reveal(effect);
    }
}

/// A software interrupt whose handler returns at once resumes two bytes
/// after the BRK with every register as it was, P included: the B flag and
/// bit 5 that BRK pushes are not taken back, and RTI restores I.
pub proof fn lemma_brk_then_rti(m: Machine)
    requires
        m.mem.len() == 0x10000,
        m.mem[m.reg.pc as int] == 0x00,
        step_spec(m).0.mem[step_spec(m).0.reg.pc as int] == 0x40,
    ensures
        step_spec(step_spec(m).0).0.reg == (Reg { pc: wrap16(m.reg.pc + 2), ..m.reg }),
        step_spec(m).1 + step_spec(step_spec(m).0).1 == 13,
{
    lemma_step_brk(m);
    let interrupted = step_spec(m).0;
    lemma_step_rti(interrupted);
    let sp = m.reg.sp;
    let p = m.reg.p;
    let ret = wrap16(m.reg.pc + 2);
    let mem1 = pushed_word(m.mem, sp, ret);
    let pushed_p = p | (FLAG_B | FLAG_ALWAYS_ONE);
    lemma_wrap8_steps(sp);
    crate::vm_state::lemma_pull_word_after_push_word(m.mem, sp, ret);
    lemma_top_word_after_push(mem1, wrap8(sp - 2), pushed_p);
    lemma_p_restored(p);
}

proof fn lemma_wrap8_steps(sp: u8)
    ensures
        wrap8(wrap8(sp - 3) + 1) == wrap8(sp - 2),
        wrap8(wrap8(sp - 3) + 3) == sp,
{
    if sp >= 3 {
    } else if sp == 2 {
    } else if sp == 1 {
    } else {
    }
}

/// Pushing a byte leaves the word above it in the stack as it was.
proof fn lemma_top_word_after_push(mem: Seq<u8>, sp: u8, value: u8)
    requires
        mem.len() == 0x10000,
    ensures
        pushed(mem, sp, value)[stack_slot(sp)] == value,
        top_word(pushed(mem, sp, value), sp) == top_word(mem, sp),
{
    assert(stack_slot(wrap8(sp + 2)) != stack_slot(sp));
    assert(stack_slot(wrap8(sp + 1)) != stack_slot(sp));
}

proof fn lemma_p_restored(p: u8)
    ensures
        pulled_p(p | FLAG_I, p | (FLAG_B | FLAG_ALWAYS_ONE)) == p,
{
    assert(((p | 0x30u8) & 0xcfu8) | ((p | 0x04u8) & 0x30u8) == p) by (bit_vector);
    assert((FLAG_B | FLAG_ALWAYS_ONE) == 0x30u8) by (bit_vector);
}

/// PHA: stores A in the stack slot and moves the stack pointer down.
proof fn lemma_step_pha(m: Machine)
    requires
        m.mem[m.reg.pc as int] == 0x48,
    ensures
        step_spec(m) == (
            Machine {
                reg: Reg { pc: wrap16(m.reg.pc + 1), sp: wrap8(m.reg.sp - 1), ..m.reg },
                mem: pushed(m.mem, m.reg.sp, m.reg.a),
            },
            3int,
        ),
{
    assert(instruction(0x48) == Some(Instr { op: Op::Pha, mode: Mode::Imp, cycles: 3 })) by {
        reveal(instruction);
    }
    let advanced = Machine { reg: Reg { pc: wrap16(m.reg.pc + 1), ..m.reg }, mem: m.mem };
    assert(effect(Op::Pha, Mode::Imp, advanced, 0) == (effect_control(Op::Pha, advanced, 0), 0int)) by {
        reveal(effect);
    }
}

/// PLA: loads A from the slot above the stack pointer, with Z and N.
proof fn lemma_step_pla(m: Machine)
    requires
        m.mem[m.reg.pc as int] == 0x68,
    ensures
        ({
            let value = m.mem[stack_slot(wrap8(m.reg.sp + 1))];
            step_spec(m) == (
                Machine {
                    reg: Reg {
                        pc: wrap16(m.reg.pc + 1),
                        sp: wrap8(m.reg.sp + 1),
                        a: value,
                        p: with_nz(m.reg.p, value),
                        ..m.reg
                    },
                    mem: m.mem,
                },
                4int,
            )
        }),
{
    assert(instruction(0x68) == Some(Instr { op: Op::Pla, mode: Mode::Imp, cycles: 4 })) by {
        reveal(instruction);
    }
    let advanced = Machine { reg: Reg { pc: wrap16(m.reg.pc + 1), ..m.reg }, mem: m.mem };
    assert(effect(Op::Pla, Mode::Imp, advanced, 0) == (effect_control(Op::Pla, advanced, 0), 0int)) by {
        reveal(effect);
    }
}

/// PHP: stores P, with B and bit 5 set, in the stack slot.
proof fn lemma_step_php(m: Machine)
    requires
        m.mem[m.reg.pc as int] == 0x08,
    ensures
        step_spec(m) == (
            Machine {
                reg: Reg { pc: wrap16(m.reg.pc + 1), sp: wrap8(m.reg.sp - 1), ..m.reg },
                mem: pushed(m.mem, m.reg.sp, m.reg.p | (FLAG_B | FLAG_ALWAYS_ONE)),
            },
            3int,
        ),
{
    assert(instruction(0x08) == Some(Instr { op: Op::Php, mode: Mode::Imp, cycles: 3 })) by {
        reveal(instruction);
    }
    let advanced = Machine { reg: Reg { pc: wrap16(m.reg.pc + 1), ..m.reg }, mem: m.mem };
    assert(effect(Op::Php, Mode::Imp, advanced, 0) == (effect_control(Op::Php, advanced, 0), 0int)) by {
        reveal(effect);
    }
}

/// PLP: pulls P, keeping B and bit 5 as they are.
proof fn lemma_step_plp(m: Machine)
    requires
        m.mem[m.reg.pc as int] == 0x28,
    ensures
        step_spec(m) == (
            Machine {
                reg: Reg {
                    pc: wrap16(m.reg.pc + 1),
                    sp: wrap8(m.reg.sp + 1),
                    p: pulled_p(m.reg.p, m.mem[stack_slot(wrap8(m.reg.sp + 1))]),
                    ..m.reg
                },
                mem: m.mem,
            },
            4int,
        ),
{
    assert(instruction(0x28) == Some(Instr { op: Op::Plp, mode: Mode::Imp, cycles: 4 })) by {
        reveal(instruction);
    }
    let advanced = Machine { reg: Reg { pc: wrap16(m.reg.pc + 1), ..m.reg }, mem: m.mem };
    assert(effect(Op::Plp, Mode::Imp, advanced, 0) == (effect_control(Op::Plp, advanced, 0), 0int)) by {
        reveal(effect);
    }
}

proof fn lemma_p_pulled_back(p: u8)
    ensures
        pulled_p(p, p | (FLAG_B | FLAG_ALWAYS_ONE)) == p,
{
    assert(((p | 0x30u8) & 0xcfu8) | (p & 0x30u8) == p) by (bit_vector);
    assert((FLAG_B | FLAG_ALWAYS_ONE) == 0x30u8) by (bit_vector);
}

/// PHA followed by PLA gives A back and leaves the stack pointer where it
/// was; Z and N then describe A, every other flag and register is as it
/// was, and the pushed byte stays in the stack page.
pub proof fn lemma_pha_then_pla(m: Machine)
    requires
        m.mem.len() == 0x10000,
        m.mem[m.reg.pc as int] == 0x48,
        step_spec(m).0.mem[step_spec(m).0.reg.pc as int] == 0x68,
    ensures
        step_spec(step_spec(m).0).0.reg == (Reg {
            pc: wrap16(m.reg.pc + 2),
            p: with_nz(m.reg.p, m.reg.a),
            ..m.reg
        }),
        step_spec(step_spec(m).0).0.mem == pushed(m.mem, m.reg.sp, m.reg.a),
        step_spec(m).1 + step_spec(step_spec(m).0).1 == 7,
{
    lemma_step_pha(m);
    lemma_step_pla(step_spec(m).0);
    crate::vm_state::lemma_pull_after_push(m.mem, m.reg.sp, m.reg.a);
    assert(wrap16(wrap16(m.reg.pc + 1) + 1) == wrap16(m.reg.pc + 2)) by {
        if m.reg.pc + 2 >= 65536 {
        }
    }
}

/// PHP followed by PLP gives every flag of P back, and leaves the stack
/// pointer and the other registers as they were.
pub proof fn lemma_php_then_plp(m: Machine)
    requires
        m.mem.len() == 0x10000,
        m.mem[m.reg.pc as int] == 0x08,
        step_spec(m).0.mem[step_spec(m).0.reg.pc as int] == 0x28,
    ensures
        step_spec(step_spec(m).0).0.reg == (Reg { pc: wrap16(m.reg.pc + 2), ..m.reg }),
        step_spec(m).1 + step_spec(step_spec(m).0).1 == 7,
{
    let p = m.reg.p;
    let pushed_p = p | (FLAG_B | FLAG_ALWAYS_ONE);
    lemma_step_php(m);
    lemma_step_plp(step_spec(m).0);
    crate::vm_state::lemma_pull_after_push(m.mem, m.reg.sp, pushed_p);
    lemma_p_pulled_back(p);
    assert(wrap16(wrap16(m.reg.pc + 1) + 1) == wrap16(m.reg.pc + 2)) by {
        if m.reg.pc + 2 >= 65536 {
        }
    }
}

} // verus!
