use crate::alu::{
    adc, sbc, compare, bit_test, asl, lsr, rol, ror, exec_adc, exec_sbc, exec_compare,
    exec_bit_test, exec_asl, exec_lsr, exec_rol, exec_ror,
};
use crate::instruction::{decode, instruction, instruction_len, mode_len, Instr, Mode, Op};
use crate::memory::Memory;
use crate::reg::{
    flag, with_flag, with_nz, get_flag, set_flag, set_nz, Reg, FLAG_ALWAYS_ONE, FLAG_B, FLAG_C,
    FLAG_D, FLAG_I, FLAG_N, FLAG_V, FLAG_Z,
};
use crate::util::{make_word, word_of, hi_byte, lo_byte, wrap8, wrap16};
use crate::vm_state::{VmState, stack_slot, pushed, pushed_word, top_word};
use vstd::prelude::*;

verus! {

/// The address of the IRQ/BRK vector.
pub const IRQ: u16 = 0xfffe;
/// The address of the RESET vector.
pub const RESET: u16 = 0xfffc;
/// The address of the NMI vector.
pub const NMI: u16 = 0xfffa;

/// The mathematical state of the processor: registers and the 64 KiB memory.
pub struct Machine {
    pub reg: Reg,
    pub mem: Seq<u8>,
}

impl View for VmState {
    type V = Machine;

    open spec fn view(&self) -> Machine {
        Machine { reg: self.reg, mem: self.memory@ }
    }
}

/// The value of a branch offset byte as a two's-complement number.
pub open spec fn signed8(b: u8) -> int {
    if b >= 128 {
        b - 256
    } else {
        b as int
    }
}

/// `base + index` on the 16-bit bus, and whether that crossed into another page.
pub open spec fn indexed(base: u16, index: u8) -> (u16, bool) {
    let addr = wrap16(base + index);
    (addr, hi_byte(addr) != hi_byte(base))
}

/// The 16-bit word stored little-endian at `addr` and `addr + 1`.
pub open spec fn word_at(mem: Seq<u8>, addr: u16) -> u16 {
    word_of(mem[wrap16(addr + 1) as int], mem[addr as int])
}

/// The effective address of the instruction at `reg.pc` in `mode`, and whether
/// indexing crossed a page. For immediate operands this is the address of the
/// operand byte; for relative operands it is the branch target; JMP's
/// indirect mode fetches the high byte of the target from the start of the
/// pointer's page when the pointer ends a page, as the NMOS 6502 does.
pub open spec fn operand_address(reg: Reg, mem: Seq<u8>, mode: Mode) -> (u16, bool) {
    let b1 = mem[wrap16(reg.pc + 1) as int];
    let b2 = mem[wrap16(reg.pc + 2) as int];
    match mode {
        Mode::Imp | Mode::Acc => (0, false),
        Mode::Imm => (wrap16(reg.pc + 1), false),
        Mode::Zp => (b1 as u16, false),
        Mode::ZpX => (wrap8(b1 + reg.x) as u16, false),
        Mode::ZpY => (wrap8(b1 + reg.y) as u16, false),
        Mode::Abs => (word_of(b2, b1), false),
        Mode::AbsX => indexed(word_of(b2, b1), reg.x),
        Mode::AbsY => indexed(word_of(b2, b1), reg.y),
        Mode::Ind => {
            let ptr = word_of(b2, b1);
            (word_of(mem[word_of(b2, wrap8(b1 + 1)) as int], mem[ptr as int]), false)
        },
        Mode::IndX => {
            let zp = wrap8(b1 + reg.x);
            (word_of(mem[wrap8(zp + 1) as int], mem[zp as int]), false)
        },
        Mode::IndY => indexed(word_of(mem[wrap8(b1 + 1) as int], mem[b1 as int]), reg.y),
        Mode::Rel => (wrap16(reg.pc + 2 + signed8(b1)), false),
    }
}

/// Operations that read their operand and so take one more cycle when
/// indexing crosses a page.
pub open spec fn reads_operand(op: Op) -> bool {
    op == Op::Adc || op == Op::And || op == Op::Cmp || op == Op::Eor || op == Op::Lda || op
        == Op::Ldx || op == Op::Ldy || op == Op::Ora || op == Op::Sbc
}

/// The extra cycle of a read through an indexed mode that crossed a page.
pub open spec fn page_penalty(op: Op, mode: Mode, crossed: bool) -> int {
    if crossed && reads_operand(op) && (mode == Mode::AbsX || mode == Mode::AbsY || mode
        == Mode::IndY) {
        1
    } else {
        0
    }
}

/// The condition under which a branch operation is taken.
pub open spec fn branch_taken(op: Op, p: u8) -> bool {
    match op {
        Op::Bcc => !flag(p, FLAG_C),
        Op::Bcs => flag(p, FLAG_C),
        Op::Bne => !flag(p, FLAG_Z),
        Op::Beq => flag(p, FLAG_Z),
        Op::Bpl => !flag(p, FLAG_N),
        Op::Bmi => flag(p, FLAG_N),
        Op::Bvc => !flag(p, FLAG_V),
        Op::Bvs => flag(p, FLAG_V),
        _ => false,
    }
}

/// The value of P that PLP and RTI install: the pulled byte for the six real
/// flags, while B and the unused bit keep their current values.
pub open spec fn pulled_p(p: u8, pulled: u8) -> u8 {
    (pulled & 0xcf) | (p & 0x30)
}

/// Loads and stores.
pub open spec fn effect_load_store(op: Op, m: Machine, addr: u16) -> Machine {
    let r = m.reg;
    let mem = m.mem;
    let v = mem[addr as int];
    match op {
        Op::Lda => Machine { reg: Reg { a: v, p: with_nz(r.p, v), ..r }, mem },
        Op::Ldx => Machine { reg: Reg { x: v, p: with_nz(r.p, v), ..r }, mem },
        Op::Ldy => Machine { reg: Reg { y: v, p: with_nz(r.p, v), ..r }, mem },
        Op::Sta => Machine { reg: r, mem: mem.update(addr as int, r.a) },
        Op::Stx => Machine { reg: r, mem: mem.update(addr as int, r.x) },
        _ => Machine { reg: r, mem: mem.update(addr as int, r.y) },
    }
}

/// Arithmetic, logic, comparisons and BIT: P and possibly A change.
pub open spec fn effect_alu(op: Op, m: Machine, addr: u16) -> Machine {
    let r = m.reg;
    let mem = m.mem;
    let v = mem[addr as int];
    match op {
        Op::Adc => Machine { reg: Reg { a: adc(r.p, r.a, v).0, p: adc(r.p, r.a, v).1, ..r }, mem },
        Op::Sbc => Machine { reg: Reg { a: sbc(r.p, r.a, v).0, p: sbc(r.p, r.a, v).1, ..r }, mem },
        Op::And => Machine { reg: Reg { a: r.a & v, p: with_nz(r.p, r.a & v), ..r }, mem },
        Op::Ora => Machine { reg: Reg { a: r.a | v, p: with_nz(r.p, r.a | v), ..r }, mem },
        Op::Eor => Machine { reg: Reg { a: r.a ^ v, p: with_nz(r.p, r.a ^ v), ..r }, mem },
        Op::Cmp => Machine { reg: Reg { p: compare(r.p, r.a, v), ..r }, mem },
        Op::Cpx => Machine { reg: Reg { p: compare(r.p, r.x, v), ..r }, mem },
        Op::Cpy => Machine { reg: Reg { p: compare(r.p, r.y, v), ..r }, mem },
        _ => Machine { reg: Reg { p: bit_test(r.p, r.a, v), ..r }, mem },
    }
}

/// The result and new P of a shift or rotate of `input`.
pub open spec fn shifted(op: Op, p: u8, input: u8) -> (u8, u8) {
    match op {
        Op::Asl => asl(p, input),
        Op::Lsr => lsr(p, input),
        Op::Rol => rol(p, input),
        _ => ror(p, input),
    }
}

/// Shifts and rotates, of the accumulator or of a byte in memory.
pub open spec fn effect_shift(op: Op, mode: Mode, m: Machine, addr: u16) -> Machine {
    let r = m.reg;
    if mode == Mode::Acc {
        let (out, p) = shifted(op, r.p, r.a);
        Machine { reg: Reg { a: out, p, ..r }, mem: m.mem }
    } else {
        let (out, p) = shifted(op, r.p, m.mem[addr as int]);
        Machine { reg: Reg { p, ..r }, mem: m.mem.update(addr as int, out) }
    }
}

/// Increments, decrements and register transfers.
pub open spec fn effect_count_transfer(op: Op, m: Machine, addr: u16) -> Machine {
    let r = m.reg;
    let mem = m.mem;
    let v = mem[addr as int];
    match op {
        Op::Inc => Machine {
            reg: Reg { p: with_nz(r.p, wrap8(v + 1)), ..r },
            mem: mem.update(addr as int, wrap8(v + 1)),
        },
        Op::Dec => Machine {
            reg: Reg { p: with_nz(r.p, wrap8(v - 1)), ..r },
            mem: mem.update(addr as int, wrap8(v - 1)),
        },
        Op::Inx => Machine { reg: Reg { x: wrap8(r.x + 1), p: with_nz(r.p, wrap8(r.x + 1)), ..r }, mem },
        Op::Iny => Machine { reg: Reg { y: wrap8(r.y + 1), p: with_nz(r.p, wrap8(r.y + 1)), ..r }, mem },
        Op::Dex => Machine { reg: Reg { x: wrap8(r.x - 1), p: with_nz(r.p, wrap8(r.x - 1)), ..r }, mem },
        Op::Dey => Machine { reg: Reg { y: wrap8(r.y - 1), p: with_nz(r.p, wrap8(r.y - 1)), ..r }, mem },
        Op::Tax => Machine { reg: Reg { x: r.a, p: with_nz(r.p, r.a), ..r }, mem },
        Op::Tay => Machine { reg: Reg { y: r.a, p: with_nz(r.p, r.a), ..r }, mem },
        Op::Txa => Machine { reg: Reg { a: r.x, p: with_nz(r.p, r.x), ..r }, mem },
        Op::Tya => Machine { reg: Reg { a: r.y, p: with_nz(r.p, r.y), ..r }, mem },
        Op::Tsx => Machine { reg: Reg { x: r.sp, p: with_nz(r.p, r.sp), ..r }, mem },
        _ => Machine { reg: Reg { sp: r.x, ..r }, mem },
    }
}

/// Conditional branches: the machine, and the extra cycles of a taken branch
/// (one, or two when the target lies on another page than the next instruction).
pub open spec fn effect_branch(op: Op, m: Machine, addr: u16) -> (Machine, int) {
    if branch_taken(op, m.reg.p) {
        (
            Machine { reg: Reg { pc: addr, ..m.reg }, mem: m.mem },
            if hi_byte(addr) != hi_byte(m.reg.pc) {
                2
            } else {
                1
            },
        )
    } else {
        (m, 0)
    }
}

/// Jumps, subroutine calls and returns, BRK and the stack operations.
pub open spec fn effect_control(op: Op, m: Machine, addr: u16) -> Machine {
    let r = m.reg;
    let mem = m.mem;
    match op {
        Op::Jmp => Machine { reg: Reg { pc: addr, ..r }, mem },
        Op::Jsr => Machine {
            reg: Reg { pc: addr, sp: wrap8(r.sp - 2), ..r },
            mem: pushed_word(mem, r.sp, wrap16(r.pc - 1)),
        },
        Op::Rts => Machine {
            reg: Reg { pc: wrap16(top_word(mem, r.sp) + 1), sp: wrap8(r.sp + 2), ..r },
            mem,
        },
        Op::Rti => Machine {
            reg: Reg {
                p: pulled_p(r.p, mem[stack_slot(wrap8(r.sp + 1))]),
                pc: top_word(mem, wrap8(r.sp + 1)),
                sp: wrap8(r.sp + 3),
                ..r
            },
            mem,
        },
        Op::Brk => {
            let mem2 = pushed(
                pushed_word(mem, r.sp, wrap16(r.pc + 1)),
                wrap8(r.sp - 2),
                r.p | (FLAG_B | FLAG_ALWAYS_ONE),
            );
            Machine {
                reg: Reg { pc: word_at(mem2, IRQ), sp: wrap8(r.sp - 3), p: r.p | FLAG_I, ..r },
                mem: mem2,
            }
        },
        Op::Pha => Machine { reg: Reg { sp: wrap8(r.sp - 1), ..r }, mem: pushed(mem, r.sp, r.a) },
        Op::Php => Machine {
            reg: Reg { sp: wrap8(r.sp - 1), ..r },
            mem: pushed(mem, r.sp, r.p | (FLAG_B | FLAG_ALWAYS_ONE)),
        },
        Op::Pla => {
            let value = mem[stack_slot(wrap8(r.sp + 1))];
            Machine { reg: Reg { a: value, p: with_nz(r.p, value), sp: wrap8(r.sp + 1), ..r }, mem }
        },
        _ => Machine {
            reg: Reg {
                p: pulled_p(r.p, mem[stack_slot(wrap8(r.sp + 1))]),
                sp: wrap8(r.sp + 1),
                ..r
            },
            mem,
        },
    }
}

/// The flag operations and NOP.
pub open spec fn effect_flags(op: Op, m: Machine) -> Machine {
    let r = m.reg;
    match op {
        Op::Clc => Machine { reg: Reg { p: with_flag(r.p, FLAG_C, false), ..r }, mem: m.mem },
        Op::Cld => Machine { reg: Reg { p: with_flag(r.p, FLAG_D, false), ..r }, mem: m.mem },
        Op::Cli => Machine { reg: Reg { p: with_flag(r.p, FLAG_I, false), ..r }, mem: m.mem },
        Op::Clv => Machine { reg: Reg { p: with_flag(r.p, FLAG_V, false), ..r }, mem: m.mem },
        Op::Sec => Machine { reg: Reg { p: with_flag(r.p, FLAG_C, true), ..r }, mem: m.mem },
        Op::Sed => Machine { reg: Reg { p: with_flag(r.p, FLAG_D, true), ..r }, mem: m.mem },
        Op::Sei => Machine { reg: Reg { p: with_flag(r.p, FLAG_I, true), ..r }, mem: m.mem },
        _ => m,
    }
}

/// Which group of the effect functions an operation belongs to.
pub open spec fn op_group(op: Op) -> int {
    match op {
        Op::Lda | Op::Ldx | Op::Ldy | Op::Sta | Op::Stx | Op::Sty => 0,
        Op::Adc | Op::Sbc | Op::And | Op::Ora | Op::Eor | Op::Cmp | Op::Cpx | Op::Cpy
        | Op::Bit => 1,
        Op::Asl | Op::Lsr | Op::Rol | Op::Ror => 2,
        Op::Inc | Op::Dec | Op::Inx | Op::Iny | Op::Dex | Op::Dey | Op::Tax | Op::Tay | Op::Txa
        | Op::Tya | Op::Tsx | Op::Txs => 3,
        Op::Bcc | Op::Bcs | Op::Bne | Op::Beq | Op::Bpl | Op::Bmi | Op::Bvc | Op::Bvs => 4,
        Op::Jmp | Op::Jsr | Op::Rts | Op::Rti | Op::Brk | Op::Pha | Op::Php | Op::Pla
        | Op::Plp => 5,
        _ => 6,
    }
}

/// The effect of `op` on a machine whose program counter already points past
/// the instruction, given the effective address; also the cycles that a
/// taken branch adds.
#[verifier::opaque]
pub open spec fn effect(op: Op, mode: Mode, m: Machine, addr: u16) -> (Machine, int) {
    let g = op_group(op);
    if g == 0 {
        (effect_load_store(op, m, addr), 0)
    } else if g == 1 {
        (effect_alu(op, m, addr), 0)
    } else if g == 2 {
        (effect_shift(op, mode, m, addr), 0)
    } else if g == 3 {
        (effect_count_transfer(op, m, addr), 0)
    } else if g == 4 {
        effect_branch(op, m, addr)
    } else if g == 5 {
        (effect_control(op, m, addr), 0)
    } else {
        (effect_flags(op, m), 0)
    }
}

/// Whether the byte at the program counter is a documented opcode.
pub open spec fn can_step(m: Machine) -> bool {
    instruction(m.mem[m.reg.pc as int]) is Some
}

/// One instruction: the machine after executing the instruction at the
/// program counter, and the cycles it took.
pub open spec fn step_spec(m: Machine) -> (Machine, int) {
    let instr = instruction(m.mem[m.reg.pc as int]).unwrap();
    let (addr, crossed) = operand_address(m.reg, m.mem, instr.mode);
    let advanced = Machine { reg: Reg { pc: wrap16(m.reg.pc + mode_len(instr.mode)), ..m.reg }, mem: m.mem };
    let (after, extra) = effect(instr.op, instr.mode, advanced, addr);
    (after, instr.cycles + page_penalty(instr.op, instr.mode, crossed) + extra)
}

} // verus!

verus! {

fn exec_indexed(base: u16, index: u8) -> (r: (u16, bool))
    ensures
        r == indexed(base, index),
{
    let addr = base.wrapping_add(index as u16);
    (addr, addr / 256 != base / 256)
}

impl VmState {
    /// The word stored little-endian at `addr`, `addr + 1`.
    pub fn load_word(&self, addr: u16) -> (r: u16)
        requires
            self.wf(),
        ensures
            r == word_at(self.memory@, addr),
    {
        let lo = self.memory.load(addr);
        let hi = self.memory.load(addr.wrapping_add(1));
        make_word(hi, lo)
    }

    /// The effective address of the instruction at the program counter.
    pub fn operand_address(&self, mode: Mode) -> (r: (u16, bool))
        requires
            self.wf(),
        ensures
            r == operand_address(self.reg, self.memory@, mode),
    {
        let pc = self.reg.pc;
        let b1 = self.memory.load(pc.wrapping_add(1));
        let b2 = self.memory.load(pc.wrapping_add(2));
        match mode {
            Mode::Imp | Mode::Acc => (0, false),
            Mode::Imm => (pc.wrapping_add(1), false),
            Mode::Zp => (b1 as u16, false),
            Mode::ZpX => (b1.wrapping_add(self.reg.x) as u16, false),
            Mode::ZpY => (b1.wrapping_add(self.reg.y) as u16, false),
            Mode::Abs => (make_word(b2, b1), false),
            Mode::AbsX => exec_indexed(make_word(b2, b1), self.reg.x),
            Mode::AbsY => exec_indexed(make_word(b2, b1), self.reg.y),
            Mode::Ind => {
                let ptr = make_word(b2, b1);
                let lo = self.memory.load(ptr);
                let hi = self.memory.load(make_word(b2, b1.wrapping_add(1)));
                (make_word(hi, lo), false)
            },
            Mode::IndX => {
                let zp = b1.wrapping_add(self.reg.x);
                let lo = self.memory.load(zp as u16);
                let hi = self.memory.load(zp.wrapping_add(1) as u16);
                (make_word(hi, lo), false)
            },
            Mode::IndY => {
                let lo = self.memory.load(b1 as u16);
                let hi = self.memory.load(b1.wrapping_add(1) as u16);
                exec_indexed(make_word(hi, lo), self.reg.y)
            },
            Mode::Rel => {
                let base = pc.wrapping_add(2);
                if b1 < 128 {
                    (base.wrapping_add(b1 as u16), false)
                } else {
                    (base.wrapping_sub(256 - b1 as u16), false)
                }
            },
        }
    }

    fn exec_load_store(&mut self, op: Op, addr: u16)
        requires
            old(self).wf(),
            op_group(op) == 0,
        ensures
            final(self).wf(),
            final(self)@ == effect_load_store(op, old(self)@, addr),
    {
        match op {
            Op::Lda => {
                let v = self.memory.load(addr);
                self.reg.a = v;
                self.reg.p = set_nz(self.reg.p, v);
            },
            Op::Ldx => {
                let v = self.memory.load(addr);
                self.reg.x = v;
                self.reg.p = set_nz(self.reg.p, v);
            },
            Op::Ldy => {
                let v = self.memory.load(addr);
                self.reg.y = v;
                self.reg.p = set_nz(self.reg.p, v);
            },
            Op::Sta => {
                let a = self.reg.a;
                self.memory.store(addr, a);
            },
            Op::Stx => {
                let x = self.reg.x;
                self.memory.store(addr, x);
            },
            _ => {
                let y = self.reg.y;
                self.memory.store(addr, y);
            },
        }
    }

    fn exec_alu(&mut self, op: Op, addr: u16)
        requires
            old(self).wf(),
            op_group(op) == 1,
        ensures
            final(self).wf(),
            final(self)@ == effect_alu(op, old(self)@, addr),
    {
        let v = self.memory.load(addr);
        let p = self.reg.p;
        let a = self.reg.a;
        match op {
            Op::Adc => {
                let (a2, p2) = exec_adc(p, a, v);
                self.reg.a = a2;
                self.reg.p = p2;
            },
            Op::Sbc => {
                let (a2, p2) = exec_sbc(p, a, v);
                self.reg.a = a2;
                self.reg.p = p2;
            },
            Op::And => {
                self.reg.a = a & v;
                self.reg.p = set_nz(p, a & v);
            },
            Op::Ora => {
                self.reg.a = a | v;
                self.reg.p = set_nz(p, a | v);
            },
            Op::Eor => {
                self.reg.a = a ^ v;
                self.reg.p = set_nz(p, a ^ v);
            },
            Op::Cmp => {
                self.reg.p = exec_compare(p, a, v);
            },
            Op::Cpx => {
                self.reg.p = exec_compare(p, self.reg.x, v);
            },
            Op::Cpy => {
                self.reg.p = exec_compare(p, self.reg.y, v);
            },
            _ => {
                self.reg.p = exec_bit_test(p, a, v);
            },
        }
    }

    fn exec_shift(&mut self, op: Op, mode: Mode, addr: u16)
        requires
            old(self).wf(),
            op_group(op) == 2,
        ensures
            final(self).wf(),
            final(self)@ == effect_shift(op, mode, old(self)@, addr),
    {
        let input = if mode == Mode::Acc {
            self.reg.a
        } else {
            self.memory.load(addr)
        };
        let (out, p) = match op {
            Op::Asl => exec_asl(self.reg.p, input),
            Op::Lsr => exec_lsr(self.reg.p, input),
            Op::Rol => exec_rol(self.reg.p, input),
            _ => exec_ror(self.reg.p, input),
        };
        self.reg.p = p;
        if mode == Mode::Acc {
            self.reg.a = out;
        } else {
            self.memory.store(addr, out);
        }
    }

    fn exec_count_transfer(&mut self, op: Op, addr: u16)
        requires
            old(self).wf(),
            op_group(op) == 3,
        ensures
            final(self).wf(),
            final(self)@ == effect_count_transfer(op, old(self)@, addr),
    {
        match op {
            Op::Inc => {
                let v = self.memory.load(addr).wrapping_add(1);
                self.memory.store(addr, v);
                self.reg.p = set_nz(self.reg.p, v);
            },
            Op::Dec => {
                let v = self.memory.load(addr).wrapping_sub(1);
                self.memory.store(addr, v);
                self.reg.p = set_nz(self.reg.p, v);
            },
            Op::Inx => {
                self.reg.x = self.reg.x.wrapping_add(1);
                self.reg.p = set_nz(self.reg.p, self.reg.x);
            },
            Op::Iny => {
                self.reg.y = self.reg.y.wrapping_add(1);
                self.reg.p = set_nz(self.reg.p, self.reg.y);
            },
            Op::Dex => {
                self.reg.x = self.reg.x.wrapping_sub(1);
                self.reg.p = set_nz(self.reg.p, self.reg.x);
            },
            Op::Dey => {
                self.reg.y = self.reg.y.wrapping_sub(1);
                self.reg.p = set_nz(self.reg.p, self.reg.y);
            },
            Op::Tax => {
                self.reg.x = self.reg.a;
                self.reg.p = set_nz(self.reg.p, self.reg.a);
            },
            Op::Tay => {
                self.reg.y = self.reg.a;
                self.reg.p = set_nz(self.reg.p, self.reg.a);
            },
            Op::Txa => {
                self.reg.a = self.reg.x;
                self.reg.p = set_nz(self.reg.p, self.reg.x);
            },
            Op::Tya => {
                self.reg.a = self.reg.y;
                self.reg.p = set_nz(self.reg.p, self.reg.y);
            },
            Op::Tsx => {
                self.reg.x = self.reg.sp;
                self.reg.p = set_nz(self.reg.p, self.reg.sp);
            },
            _ => {
                self.reg.sp = self.reg.x;
            },
        }
    }

    fn exec_branch(&mut self, op: Op, addr: u16) -> (extra: u8)
        requires
            old(self).wf(),
            op_group(op) == 4,
        ensures
            final(self).wf(),
            (final(self)@, extra as int) == effect_branch(op, old(self)@, addr),
    {
        let p = self.reg.p;
        let taken = match op {
            Op::Bcc => !get_flag(p, FLAG_C),
            Op::Bcs => get_flag(p, FLAG_C),
            Op::Bne => !get_flag(p, FLAG_Z),
            Op::Beq => get_flag(p, FLAG_Z),
            Op::Bpl => !get_flag(p, FLAG_N),
            Op::Bmi => get_flag(p, FLAG_N),
            Op::Bvc => !get_flag(p, FLAG_V),
            _ => get_flag(p, FLAG_V),
        };
        if taken {
            let crossed = addr / 256 != self.reg.pc / 256;
            self.reg.pc = addr;
            if crossed {
                2
            } else {
                1
            }
        } else {
            0
        }
    }

    fn exec_brk(&mut self)
        requires
            old(self).wf(),
        ensures
            final(self).wf(),
            final(self)@ == effect_control(Op::Brk, old(self)@, 0),
    {
        let ret = self.reg.pc.wrapping_add(1);
        self.push_word(ret);
        let p = self.reg.p | (FLAG_B | FLAG_ALWAYS_ONE);
        self.push(p);
        self.reg.p = self.reg.p | FLAG_I;
        self.reg.pc = self.load_word(IRQ);
    }

    fn exec_rti(&mut self)
        requires
            old(self).wf(),
        ensures
            final(self).wf(),
            final(self)@ == effect_control(Op::Rti, old(self)@, 0),
    {
        let pulled = self.pull();
        self.reg.p = (pulled & 0xcf) | (self.reg.p & 0x30);
        let w = self.pull_word();
        self.reg.pc = w;
    }

    fn exec_control(&mut self, op: Op, addr: u16)
        requires
            old(self).wf(),
            op_group(op) == 5,
        ensures
            final(self).wf(),
            final(self)@ == effect_control(op, old(self)@, addr),
    {
        match op {
            Op::Jmp => {
                self.reg.pc = addr;
            },
            Op::Jsr => {
                let ret = self.reg.pc.wrapping_sub(1);
                self.push_word(ret);
                self.reg.pc = addr;
            },
            Op::Rts => {
                let w = self.pull_word();
                self.reg.pc = w.wrapping_add(1);
            },
            Op::Rti => {
                self.exec_rti();
            },
            Op::Brk => {
                self.exec_brk();
            },
            Op::Pha => {
                let a = self.reg.a;
                self.push(a);
            },
            Op::Php => {
                let p = self.reg.p | (FLAG_B | FLAG_ALWAYS_ONE);
                self.push(p);
            },
            Op::Pla => {
                let value = self.pull();
                self.reg.a = value;
                self.reg.p = set_nz(self.reg.p, value);
            },
            _ => {
                let pulled = self.pull();
                self.reg.p = (pulled & 0xcf) | (self.reg.p & 0x30);
            },
        }
    }

    fn exec_flags(&mut self, op: Op)
        requires
            old(self).wf(),
            op_group(op) == 6,
        ensures
            final(self).wf(),
            final(self)@ == effect_flags(op, old(self)@),
    {
        let p = self.reg.p;
        match op {
            Op::Clc => self.reg.p = set_flag(p, FLAG_C, false),
            Op::Cld => self.reg.p = set_flag(p, FLAG_D, false),
            Op::Cli => self.reg.p = set_flag(p, FLAG_I, false),
            Op::Clv => self.reg.p = set_flag(p, FLAG_V, false),
            Op::Sec => self.reg.p = set_flag(p, FLAG_C, true),
            Op::Sed => self.reg.p = set_flag(p, FLAG_D, true),
            Op::Sei => self.reg.p = set_flag(p, FLAG_I, true),
            _ => {},
        }
    }

    fn exec_effect(&mut self, op: Op, mode: Mode, addr: u16) -> (extra: u8)
        requires
            old(self).wf(),
        ensures
            final(self).wf(),
            (final(self)@, extra as int) == effect(op, mode, old(self)@, addr),
            extra <= 2,
    {
        reveal(effect);
        match op {
            Op::Lda | Op::Ldx | Op::Ldy | Op::Sta | Op::Stx | Op::Sty => {
                self.exec_load_store(op, addr);
                0
            },
            Op::Adc | Op::Sbc | Op::And | Op::Ora | Op::Eor | Op::Cmp | Op::Cpx | Op::Cpy
            | Op::Bit => {
                self.exec_alu(op, addr);
                0
            },
            Op::Asl | Op::Lsr | Op::Rol | Op::Ror => {
                self.exec_shift(op, mode, addr);
                0
            },
            Op::Inc | Op::Dec | Op::Inx | Op::Iny | Op::Dex | Op::Dey | Op::Tax | Op::Tay
            | Op::Txa | Op::Tya | Op::Tsx | Op::Txs => {
                self.exec_count_transfer(op, addr);
                0
            },
            Op::Bcc | Op::Bcs | Op::Bne | Op::Beq | Op::Bpl | Op::Bmi | Op::Bvc | Op::Bvs => {
                self.exec_branch(op, addr)
            },
            Op::Jmp | Op::Jsr | Op::Rts | Op::Rti | Op::Brk | Op::Pha | Op::Php | Op::Pla
            | Op::Plp => {
                self.exec_control(op, addr);
                0
            },
            _ => {
                self.exec_flags(op);
                0
            },
        }
    }

    /// Executes the instruction at the program counter and returns the number
    /// of cycles it took.
    pub fn execute(&mut self, instr: Instr) -> (cycles: u8)
        requires
            old(self).wf(),
            instruction(old(self).memory@[old(self).reg.pc as int]) == Some(instr),
        ensures
            final(self).wf(),
            (final(self)@, cycles as int) == step_spec(old(self)@),
            cycles <= 10,
    {
        proof {
            crate::instruction::lemma_cycles_bound(self.memory@[self.reg.pc as int]);
        }
        let (addr, crossed) = self.operand_address(instr.mode);
        let len = instruction_len(instr.mode);
        self.reg.pc = self.reg.pc.wrapping_add(len as u16);
        let extra = self.exec_effect(instr.op, instr.mode, addr);
        let penalty: u8 = if crossed && (instr.mode == Mode::AbsX || instr.mode == Mode::AbsY
            || instr.mode == Mode::IndY) && match instr.op {
            Op::Adc | Op::And | Op::Cmp | Op::Eor | Op::Lda | Op::Ldx | Op::Ldy | Op::Ora
            | Op::Sbc => true,
            _ => false,
        } {
            1
        } else {
            0
        };
        instr.cycles + penalty + extra
    }
}

} // verus!
