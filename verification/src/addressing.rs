use crate::execute::{effect, indexed, operand_address, signed8, step_spec, Machine};
use crate::instruction::{instruction, lemma_alu_group_layout, mode_len, Mode};
use crate::reg::Reg;
use crate::util::wrap16;
use vstd::prelude::*;

verus! {

proof fn lemma_indexed(base: u16, index: u8)
    ensures
        indexed(base, index).0 as int == (base + index) % 0x10000,
        indexed(base, index).1 == (base % 256 + index >= 256),
{
    let sum = base + index;
    if sum < 0x10000 {
        assert(indexed(base, index).0 as int == sum);
        assert((sum / 256 != base / 256) == (base % 256 + index >= 256));
    } else {
        assert(indexed(base, index).0 as int == sum - 0x10000);
        assert(base / 256 == 255);
        assert((sum - 0x10000) / 256 == 0);
    }
}

proof fn lemma_direct_modes(reg: Reg, mem: Seq<u8>)
    ensures
        ({
            let pc = reg.pc;
            let b1 = mem[(pc + 1) % 0x10000];
            let b2 = mem[(pc + 2) % 0x10000];
            &&& operand_address(reg, mem, Mode::Imm).0 as int == (pc + 1) % 0x10000
            &&& operand_address(reg, mem, Mode::Zp).0 as int == b1
            &&& operand_address(reg, mem, Mode::ZpX).0 as int == (b1 + reg.x) % 256
            &&& operand_address(reg, mem, Mode::ZpY).0 as int == (b1 + reg.y) % 256
            &&& operand_address(reg, mem, Mode::Abs).0 as int == b1 + 256 * b2
            &&& operand_address(reg, mem, Mode::Rel).0 as int == (pc + 2 + signed8(b1)) % 0x10000
        }),
{
}

proof fn lemma_indexed_modes(reg: Reg, mem: Seq<u8>)
    ensures
        ({
            let pc = reg.pc;
            let b1 = mem[(pc + 1) % 0x10000];
            let b2 = mem[(pc + 2) % 0x10000];
            &&& operand_address(reg, mem, Mode::AbsX).0 as int == (b1 + 256 * b2 + reg.x) % 0x10000
            &&& operand_address(reg, mem, Mode::AbsX).1 == (b1 + reg.x >= 256)
            &&& operand_address(reg, mem, Mode::AbsY).0 as int == (b1 + 256 * b2 + reg.y) % 0x10000
            &&& operand_address(reg, mem, Mode::AbsY).1 == (b1 + reg.y >= 256)
        }),
{
    let pc = reg.pc;
    let b1 = mem[(pc + 1) % 0x10000];
    let b2 = mem[(pc + 2) % 0x10000];
    let base = (b1 + 256 * b2) as u16;
    assert(base as int == b1 + 256 * b2);
    assert(base % 256 == b1);
    lemma_indexed(base, reg.x);
    lemma_indexed(base, reg.y);
}

proof fn lemma_indirect_modes(reg: Reg, mem: Seq<u8>)
    ensures
        ({
            let pc = reg.pc;
            let b1 = mem[(pc + 1) % 0x10000];
            let b2 = mem[(pc + 2) % 0x10000];
            &&& operand_address(reg, mem, Mode::Ind).0 as int == mem[b1 + 256 * b2] + 256 * mem[(
            b1 + 1) % 256 + 256 * b2]
            &&& operand_address(reg, mem, Mode::IndX).0 as int == mem[(b1 + reg.x) % 256] + 256
                * mem[(b1 + reg.x + 1) % 256]
            &&& operand_address(reg, mem, Mode::IndY).0 as int == (mem[b1 as int] + 256 * mem[(b1
                + 1) % 256] + reg.y) % 0x10000
            &&& operand_address(reg, mem, Mode::IndY).1 == (mem[b1 as int] + reg.y >= 256)
        }),
{
    let pc = reg.pc;
    let b1 = mem[(pc + 1) % 0x10000];
    let lo = mem[b1 as int];
    let hi = mem[(b1 + 1) % 256];
    let base = (lo + 256 * hi) as u16;
    assert(base as int == lo + 256 * hi);
    assert(base % 256 == lo);
    lemma_indexed(base, reg.y);
    let zp = (b1 + reg.x) % 256;
    assert((zp + 1) % 256 == (b1 + reg.x + 1) % 256);
}

/// The effective address of each addressing mode, in terms of the operand
/// bytes `b1` and `b2` after the opcode: zero-page addresses wrap within page
/// zero, indexed absolute addresses and `(zp),Y` wrap modulo 0x10000, a
/// pointer in page zero is the little-endian word at `zp` and `zp + 1`
/// (wrapping within page zero), and a relative operand is a signed offset
/// from the byte after the instruction. An indexed read crosses a page
/// exactly when the low byte of the base plus the index passes 255.
pub proof fn lemma_effective_address(reg: Reg, mem: Seq<u8>)
    ensures
        ({
            let pc = reg.pc;
            let b1 = mem[(pc + 1) % 0x10000];
            let b2 = mem[(pc + 2) % 0x10000];
            let x = reg.x;
            let y = reg.y;
            &&& operand_address(reg, mem, Mode::Imm).0 as int == (pc + 1) % 0x10000
            &&& operand_address(reg, mem, Mode::Zp).0 as int == b1
            &&& operand_address(reg, mem, Mode::ZpX).0 as int == (b1 + x) % 256
            &&& operand_address(reg, mem, Mode::ZpY).0 as int == (b1 + y) % 256
            &&& operand_address(reg, mem, Mode::Abs).0 as int == b1 + 256 * b2
            &&& operand_address(reg, mem, Mode::AbsX).0 as int == (b1 + 256 * b2 + x) % 0x10000
            &&& operand_address(reg, mem, Mode::AbsX).1 == (b1 + x >= 256)
            &&& operand_address(reg, mem, Mode::AbsY).0 as int == (b1 + 256 * b2 + y) % 0x10000
            &&& operand_address(reg, mem, Mode::AbsY).1 == (b1 + y >= 256)
            &&& operand_address(reg, mem, Mode::Ind).0 as int == mem[b1 + 256 * b2] + 256 * mem[(
            b1 + 1) % 256 + 256 * b2]
            &&& operand_address(reg, mem, Mode::IndX).0 as int == mem[(b1 + x) % 256] + 256 * mem[(
            b1 + x + 1) % 256]
            &&& operand_address(reg, mem, Mode::IndY).0 as int == (mem[b1 as int] + 256 * mem[(b1
                + 1) % 256] + y) % 0x10000
            &&& operand_address(reg, mem, Mode::IndY).1 == (mem[b1 as int] + y >= 256)
            &&& operand_address(reg, mem, Mode::Rel).0 as int == (pc + 2 + signed8(b1)) % 0x10000
        }),
{
    lemma_direct_modes(reg, mem);
    lemma_indexed_modes(reg, mem);
    lemma_indirect_modes(reg, mem);
}

/// Only the indexed modes read an index register: no mode but `zp,X`,
/// `abs,X` and `(zp,X)` depends on X, and no mode but `zp,Y`, `abs,Y` and
/// `(zp),Y` depends on Y; A, S and P never count.
pub proof fn lemma_effective_address_registers(reg: Reg, mem: Seq<u8>, mode: Mode, other: Reg)
    requires
        other.pc == reg.pc,
    ensures
        mode != Mode::ZpX && mode != Mode::AbsX && mode != Mode::IndX && other.y == reg.y
            ==> operand_address(other, mem, mode) == operand_address(reg, mem, mode),
        mode != Mode::ZpY && mode != Mode::AbsY && mode != Mode::IndY && other.x == reg.x
            ==> operand_address(other, mem, mode) == operand_address(reg, mem, mode),
{
}

/// An indexed read costs one cycle more when indexing crosses a page, and
/// a store never does: for the opcodes with low bits `01` in `abs,X`,
/// `abs,Y` and `(zp),Y` (bits 2 to 4 equal to 7, 6 and 4), a step takes the
/// table's base cycles, plus one when the operation reads (all but STA) and
/// the low byte of the base plus the index passes 255.
pub proof fn lemma_page_crossing_cycles(m: Machine)
    requires
        m.mem[m.reg.pc as int] % 4 == 1,
        (m.mem[m.reg.pc as int] / 4) % 8 == 4 || (m.mem[m.reg.pc as int] / 4) % 8 >= 6,
    ensures
        ({
            let opcode = m.mem[m.reg.pc as int];
            let mid = (opcode / 4) % 8;
            let b1 = m.mem[(m.reg.pc + 1) % 0x10000];
            let crossed = if mid == 7 {
                b1 + m.reg.x >= 256
            } else if mid == 6 {
                b1 + m.reg.y >= 256
            } else {
                m.mem[b1 as int] + m.reg.y >= 256
            };
            let stores = opcode / 32 == 4;
            let base: int = if mid == 4 {
                5
            } else {
                4
            };
            step_spec(m).1 == if stores {
                base + 1
            } else if crossed {
                base + 1
            } else {
                base
            }
        }),
{
    let opcode = m.mem[m.reg.pc as int];
    lemma_alu_group_layout(opcode);
    lemma_effective_address(m.reg, m.mem);
    let instr = instruction(opcode).unwrap();
    let (addr, crossed) = operand_address(m.reg, m.mem, instr.mode);
    let advanced = Machine {
        reg: Reg { pc: wrap16(m.reg.pc + mode_len(instr.mode)), ..m.reg },
        mem: m.mem,
    };
    assert(effect(instr.op, instr.mode, advanced, addr).1 == 0) by {
        reveal(effect);
    }
}

} // verus!
