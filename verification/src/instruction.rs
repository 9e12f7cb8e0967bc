use vstd::prelude::*;

verus! {

/// The documented operations of the NMOS 6502.
#[derive(Clone, Copy, Debug, PartialEq, Eq, Structural)]
pub enum Op {
    Adc, And, Asl, Bcc, Bcs, Beq, Bit, Bmi, Bne, Bpl, Brk, Bvc, Bvs, Clc, Cld, Cli, Clv, Cmp, Cpx, Cpy, Dec, Dex, Dey, Eor, Inc, Inx, Iny, Jmp, Jsr, Lda, Ldx, Ldy, Lsr, Nop, Ora, Pha, Php, Pla, Plp, Rol, Ror, Rti, Rts, Sbc, Sec, Sed, Sei, Sta, Stx, Sty, Tax, Tay, Tsx, Txa, Txs, Tya,
}

/// The addressing modes of the 6502.
#[derive(Clone, Copy, Debug, PartialEq, Eq, Structural)]
pub enum Mode {
    /// No operand.
    Imp,
    /// The accumulator.
    Acc,
    /// The byte after the opcode.
    Imm,
    /// A zero-page address.
    Zp,
    /// A zero-page address indexed by X, wrapping within page zero.
    ZpX,
    /// A zero-page address indexed by Y, wrapping within page zero.
    ZpY,
    /// A 16-bit address.
    Abs,
    /// A 16-bit address indexed by X.
    AbsX,
    /// A 16-bit address indexed by Y.
    AbsY,
    /// A 16-bit pointer (JMP only).
    Ind,
    /// A zero-page pointer at the operand plus X.
    IndX,
    /// A zero-page pointer, the target then indexed by Y.
    IndY,
    /// A signed branch offset.
    Rel,
}

/// A decoded opcode: the operation, its addressing mode and its base cycle count.
#[derive(Clone, Copy, Debug, PartialEq, Eq, Structural)]
pub struct Instr {
    pub op: Op,
    pub mode: Mode,
    pub cycles: u8,
}

/// The opcode table of the NMOS 6502: the decoding of each documented opcode,
/// and `None` for the undocumented ones.
#[verifier::opaque]
pub open spec fn instruction(opcode: u8) -> Option<Instr> {
    match opcode {
        0x00 => Some(Instr { op: Op::Brk, mode: Mode::Imp, cycles: 7 }),
        0x01 => Some(Instr { op: Op::Ora, mode: Mode::IndX, cycles: 6 }),
        0x05 => Some(Instr { op: Op::Ora, mode: Mode::Zp, cycles: 3 }),
        0x06 => Some(Instr { op: Op::Asl, mode: Mode::Zp, cycles: 5 }),
        0x08 => Some(Instr { op: Op::Php, mode: Mode::Imp, cycles: 3 }),
        0x09 => Some(Instr { op: Op::Ora, mode: Mode::Imm, cycles: 2 }),
        0x0A => Some(Instr { op: Op::Asl, mode: Mode::Acc, cycles: 2 }),
        0x0D => Some(Instr { op: Op::Ora, mode: Mode::Abs, cycles: 4 }),
        0x0E => Some(Instr { op: Op::Asl, mode: Mode::Abs, cycles: 6 }),
        0x10 => Some(Instr { op: Op::Bpl, mode: Mode::Rel, cycles: 2 }),
        0x11 => Some(Instr { op: Op::Ora, mode: Mode::IndY, cycles: 5 }),
        0x15 => Some(Instr { op: Op::Ora, mode: Mode::ZpX, cycles: 4 }),
        0x16 => Some(Instr { op: Op::Asl, mode: Mode::ZpX, cycles: 6 }),
        0x18 => Some(Instr { op: Op::Clc, mode: Mode::Imp, cycles: 2 }),
        0x19 => Some(Instr { op: Op::Ora, mode: Mode::AbsY, cycles: 4 }),
        0x1D => Some(Instr { op: Op::Ora, mode: Mode::AbsX, cycles: 4 }),
        0x1E => Some(Instr { op: Op::Asl, mode: Mode::AbsX, cycles: 7 }),
        0x20 => Some(Instr { op: Op::Jsr, mode: Mode::Abs, cycles: 6 }),
        0x21 => Some(Instr { op: Op::And, mode: Mode::IndX, cycles: 6 }),
        0x24 => Some(Instr { op: Op::Bit, mode: Mode::Zp, cycles: 3 }),
        0x25 => Some(Instr { op: Op::And, mode: Mode::Zp, cycles: 3 }),
        0x26 => Some(Instr { op: Op::Rol, mode: Mode::Zp, cycles: 5 }),
        0x28 => Some(Instr { op: Op::Plp, mode: Mode::Imp, cycles: 4 }),
        0x29 => Some(Instr { op: Op::And, mode: Mode::Imm, cycles: 2 }),
        0x2A => Some(Instr { op: Op::Rol, mode: Mode::Acc, cycles: 2 }),
        0x2C => Some(Instr { op: Op::Bit, mode: Mode::Abs, cycles: 4 }),
        0x2D => Some(Instr { op: Op::And, mode: Mode::Abs, cycles: 4 }),
        0x2E => Some(Instr { op: Op::Rol, mode: Mode::Abs, cycles: 6 }),
        0x30 => Some(Instr { op: Op::Bmi, mode: Mode::Rel, cycles: 2 }),
        0x31 => Some(Instr { op: Op::And, mode: Mode::IndY, cycles: 5 }),
        0x35 => Some(Instr { op: Op::And, mode: Mode::ZpX, cycles: 4 }),
        0x36 => Some(Instr { op: Op::Rol, mode: Mode::ZpX, cycles: 6 }),
        0x38 => Some(Instr { op: Op::Sec, mode: Mode::Imp, cycles: 2 }),
        0x39 => Some(Instr { op: Op::And, mode: Mode::AbsY, cycles: 4 }),
        0x3D => Some(Instr { op: Op::And, mode: Mode::AbsX, cycles: 4 }),
        0x3E => Some(Instr { op: Op::Rol, mode: Mode::AbsX, cycles: 7 }),
        0x40 => Some(Instr { op: Op::Rti, mode: Mode::Imp, cycles: 6 }),
        0x41 => Some(Instr { op: Op::Eor, mode: Mode::IndX, cycles: 6 }),
        0x45 => Some(Instr { op: Op::Eor, mode: Mode::Zp, cycles: 3 }),
        0x46 => Some(Instr { op: Op::Lsr, mode: Mode::Zp, cycles: 5 }),
        0x48 => Some(Instr { op: Op::Pha, mode: Mode::Imp, cycles: 3 }),
        0x49 => Some(Instr { op: Op::Eor, mode: Mode::Imm, cycles: 2 }),
        0x4A => Some(Instr { op: Op::Lsr, mode: Mode::Acc, cycles: 2 }),
        0x4C => Some(Instr { op: Op::Jmp, mode: Mode::Abs, cycles: 3 }),
        0x4D => Some(Instr { op: Op::Eor, mode: Mode::Abs, cycles: 4 }),
        0x4E => Some(Instr { op: Op::Lsr, mode: Mode::Abs, cycles: 6 }),
        0x50 => Some(Instr { op: Op::Bvc, mode: Mode::Rel, cycles: 2 }),
        0x51 => Some(Instr { op: Op::Eor, mode: Mode::IndY, cycles: 5 }),
        0x55 => Some(Instr { op: Op::Eor, mode: Mode::ZpX, cycles: 4 }),
        0x56 => Some(Instr { op: Op::Lsr, mode: Mode::ZpX, cycles: 6 }),
        0x58 => Some(Instr { op: Op::Cli, mode: Mode::Imp, cycles: 2 }),
        0x59 => Some(Instr { op: Op::Eor, mode: Mode::AbsY, cycles: 4 }),
        0x5D => Some(Instr { op: Op::Eor, mode: Mode::AbsX, cycles: 4 }),
        0x5E => Some(Instr { op: Op::Lsr, mode: Mode::AbsX, cycles: 7 }),
        0x60 => Some(Instr { op: Op::Rts, mode: Mode::Imp, cycles: 6 }),
        0x61 => Some(Instr { op: Op::Adc, mode: Mode::IndX, cycles: 6 }),
        0x65 => Some(Instr { op: Op::Adc, mode: Mode::Zp, cycles: 3 }),
        0x66 => Some(Instr { op: Op::Ror, mode: Mode::Zp, cycles: 5 }),
        0x68 => Some(Instr { op: Op::Pla, mode: Mode::Imp, cycles: 4 }),
        0x69 => Some(Instr { op: Op::Adc, mode: Mode::Imm, cycles: 2 }),
        0x6A => Some(Instr { op: Op::Ror, mode: Mode::Acc, cycles: 2 }),
        0x6C => Some(Instr { op: Op::Jmp, mode: Mode::Ind, cycles: 5 }),
        0x6D => Some(Instr { op: Op::Adc, mode: Mode::Abs, cycles: 4 }),
        0x6E => Some(Instr { op: Op::Ror, mode: Mode::Abs, cycles: 6 }),
        0x70 => Some(Instr { op: Op::Bvs, mode: Mode::Rel, cycles: 2 }),
        0x71 => Some(Instr { op: Op::Adc, mode: Mode::IndY, cycles: 5 }),
        0x75 => Some(Instr { op: Op::Adc, mode: Mode::ZpX, cycles: 4 }),
        0x76 => Some(Instr { op: Op::Ror, mode: Mode::ZpX, cycles: 6 }),
        0x78 => Some(Instr { op: Op::Sei, mode: Mode::Imp, cycles: 2 }),
        0x79 => Some(Instr { op: Op::Adc, mode: Mode::AbsY, cycles: 4 }),
        0x7D => Some(Instr { op: Op::Adc, mode: Mode::AbsX, cycles: 4 }),
        0x7E => Some(Instr { op: Op::Ror, mode: Mode::AbsX, cycles: 7 }),
        0x81 => Some(Instr { op: Op::Sta, mode: Mode::IndX, cycles: 6 }),
        0x84 => Some(Instr { op: Op::Sty, mode: Mode::Zp, cycles: 3 }),
        0x85 => Some(Instr { op: Op::Sta, mode: Mode::Zp, cycles: 3 }),
        0x86 => Some(Instr { op: Op::Stx, mode: Mode::Zp, cycles: 3 }),
        0x88 => Some(Instr { op: Op::Dey, mode: Mode::Imp, cycles: 2 }),
        0x8A => Some(Instr { op: Op::Txa, mode: Mode::Imp, cycles: 2 }),
        0x8C => Some(Instr { op: Op::Sty, mode: Mode::Abs, cycles: 4 }),
        0x8D => Some(Instr { op: Op::Sta, mode: Mode::Abs, cycles: 4 }),
        0x8E => Some(Instr { op: Op::Stx, mode: Mode::Abs, cycles: 4 }),
        0x90 => Some(Instr { op: Op::Bcc, mode: Mode::Rel, cycles: 2 }),
        0x91 => Some(Instr { op: Op::Sta, mode: Mode::IndY, cycles: 6 }),
        0x94 => Some(Instr { op: Op::Sty, mode: Mode::ZpX, cycles: 4 }),
        0x95 => Some(Instr { op: Op::Sta, mode: Mode::ZpX, cycles: 4 }),
        0x96 => Some(Instr { op: Op::Stx, mode: Mode::ZpY, cycles: 4 }),
        0x98 => Some(Instr { op: Op::Tya, mode: Mode::Imp, cycles: 2 }),
        0x99 => Some(Instr { op: Op::Sta, mode: Mode::AbsY, cycles: 5 }),
        0x9A => Some(Instr { op: Op::Txs, mode: Mode::Imp, cycles: 2 }),
        0x9D => Some(Instr { op: Op::Sta, mode: Mode::AbsX, cycles: 5 }),
        0xA0 => Some(Instr { op: Op::Ldy, mode: Mode::Imm, cycles: 2 }),
        0xA1 => Some(Instr { op: Op::Lda, mode: Mode::IndX, cycles: 6 }),
        0xA2 => Some(Instr { op: Op::Ldx, mode: Mode::Imm, cycles: 2 }),
        0xA4 => Some(Instr { op: Op::Ldy, mode: Mode::Zp, cycles: 3 }),
        0xA5 => Some(Instr { op: Op::Lda, mode: Mode::Zp, cycles: 3 }),
        0xA6 => Some(Instr { op: Op::Ldx, mode: Mode::Zp, cycles: 3 }),
        0xA8 => Some(Instr { op: Op::Tay, mode: Mode::Imp, cycles: 2 }),
        0xA9 => Some(Instr { op: Op::Lda, mode: Mode::Imm, cycles: 2 }),
        0xAA => Some(Instr { op: Op::Tax, mode: Mode::Imp, cycles: 2 }),
        0xAC => Some(Instr { op: Op::Ldy, mode: Mode::Abs, cycles: 4 }),
        0xAD => Some(Instr { op: Op::Lda, mode: Mode::Abs, cycles: 4 }),
        0xAE => Some(Instr { op: Op::Ldx, mode: Mode::Abs, cycles: 4 }),
        0xB0 => Some(Instr { op: Op::Bcs, mode: Mode::Rel, cycles: 2 }),
        0xB1 => Some(Instr { op: Op::Lda, mode: Mode::IndY, cycles: 5 }),
        0xB4 => Some(Instr { op: Op::Ldy, mode: Mode::ZpX, cycles: 4 }),
        0xB5 => Some(Instr { op: Op::Lda, mode: Mode::ZpX, cycles: 4 }),
        0xB6 => Some(Instr { op: Op::Ldx, mode: Mode::ZpY, cycles: 4 }),
        0xB8 => Some(Instr { op: Op::Clv, mode: Mode::Imp, cycles: 2 }),
        0xB9 => Some(Instr { op: Op::Lda, mode: Mode::AbsY, cycles: 4 }),
        0xBA => Some(Instr { op: Op::Tsx, mode: Mode::Imp, cycles: 2 }),
        0xBC => Some(Instr { op: Op::Ldy, mode: Mode::AbsX, cycles: 4 }),
        0xBD => Some(Instr { op: Op::Lda, mode: Mode::AbsX, cycles: 4 }),
        0xBE => Some(Instr { op: Op::Ldx, mode: Mode::AbsY, cycles: 4 }),
        0xC0 => Some(Instr { op: Op::Cpy, mode: Mode::Imm, cycles: 2 }),
        0xC1 => Some(Instr { op: Op::Cmp, mode: Mode::IndX, cycles: 6 }),
        0xC4 => Some(Instr { op: Op::Cpy, mode: Mode::Zp, cycles: 3 }),
        0xC5 => Some(Instr { op: Op::Cmp, mode: Mode::Zp, cycles: 3 }),
        0xC6 => Some(Instr { op: Op::Dec, mode: Mode::Zp, cycles: 5 }),
        0xC8 => Some(Instr { op: Op::Iny, mode: Mode::Imp, cycles: 2 }),
        0xC9 => Some(Instr { op: Op::Cmp, mode: Mode::Imm, cycles: 2 }),
        0xCA => Some(Instr { op: Op::Dex, mode: Mode::Imp, cycles: 2 }),
        0xCC => Some(Instr { op: Op::Cpy, mode: Mode::Abs, cycles: 4 }),
        0xCD => Some(Instr { op: Op::Cmp, mode: Mode::Abs, cycles: 4 }),
        0xCE => Some(Instr { op: Op::Dec, mode: Mode::Abs, cycles: 6 }),
        0xD0 => Some(Instr { op: Op::Bne, mode: Mode::Rel, cycles: 2 }),
        0xD1 => Some(Instr { op: Op::Cmp, mode: Mode::IndY, cycles: 5 }),
        0xD5 => Some(Instr { op: Op::Cmp, mode: Mode::ZpX, cycles: 4 }),
        0xD6 => Some(Instr { op: Op::Dec, mode: Mode::ZpX, cycles: 6 }),
        0xD8 => Some(Instr { op: Op::Cld, mode: Mode::Imp, cycles: 2 }),
        0xD9 => Some(Instr { op: Op::Cmp, mode: Mode::AbsY, cycles: 4 }),
        0xDD => Some(Instr { op: Op::Cmp, mode: Mode::AbsX, cycles: 4 }),
        0xDE => Some(Instr { op: Op::Dec, mode: Mode::AbsX, cycles: 7 }),
        0xE0 => Some(Instr { op: Op::Cpx, mode: Mode::Imm, cycles: 2 }),
        0xE1 => Some(Instr { op: Op::Sbc, mode: Mode::IndX, cycles: 6 }),
        0xE4 => Some(Instr { op: Op::Cpx, mode: Mode::Zp, cycles: 3 }),
        0xE5 => Some(Instr { op: Op::Sbc, mode: Mode::Zp, cycles: 3 }),
        0xE6 => Some(Instr { op: Op::Inc, mode: Mode::Zp, cycles: 5 }),
        0xE8 => Some(Instr { op: Op::Inx, mode: Mode::Imp, cycles: 2 }),
        0xE9 => Some(Instr { op: Op::Sbc, mode: Mode::Imm, cycles: 2 }),
        0xEA => Some(Instr { op: Op::Nop, mode: Mode::Imp, cycles: 2 }),
        0xEC => Some(Instr { op: Op::Cpx, mode: Mode::Abs, cycles: 4 }),
        0xED => Some(Instr { op: Op::Sbc, mode: Mode::Abs, cycles: 4 }),
        0xEE => Some(Instr { op: Op::Inc, mode: Mode::Abs, cycles: 6 }),
        0xF0 => Some(Instr { op: Op::Beq, mode: Mode::Rel, cycles: 2 }),
        0xF1 => Some(Instr { op: Op::Sbc, mode: Mode::IndY, cycles: 5 }),
        0xF5 => Some(Instr { op: Op::Sbc, mode: Mode::ZpX, cycles: 4 }),
        0xF6 => Some(Instr { op: Op::Inc, mode: Mode::ZpX, cycles: 6 }),
        0xF8 => Some(Instr { op: Op::Sed, mode: Mode::Imp, cycles: 2 }),
        0xF9 => Some(Instr { op: Op::Sbc, mode: Mode::AbsY, cycles: 4 }),
        0xFD => Some(Instr { op: Op::Sbc, mode: Mode::AbsX, cycles: 4 }),
        0xFE => Some(Instr { op: Op::Inc, mode: Mode::AbsX, cycles: 7 }),
        _ => None,
    }
}

/// Decodes an opcode by the table.
pub fn decode(opcode: u8) -> (r: Option<Instr>)
    ensures
        r == instruction(opcode),
{
    reveal(instruction);
    match opcode {
        0x00 => Some(Instr { op: Op::Brk, mode: Mode::Imp, cycles: 7 }),
        0x01 => Some(Instr { op: Op::Ora, mode: Mode::IndX, cycles: 6 }),
        0x05 => Some(Instr { op: Op::Ora, mode: Mode::Zp, cycles: 3 }),
        0x06 => Some(Instr { op: Op::Asl, mode: Mode::Zp, cycles: 5 }),
        0x08 => Some(Instr { op: Op::Php, mode: Mode::Imp, cycles: 3 }),
        0x09 => Some(Instr { op: Op::Ora, mode: Mode::Imm, cycles: 2 }),
        0x0A => Some(Instr { op: Op::Asl, mode: Mode::Acc, cycles: 2 }),
        0x0D => Some(Instr { op: Op::Ora, mode: Mode::Abs, cycles: 4 }),
        0x0E => Some(Instr { op: Op::Asl, mode: Mode::Abs, cycles: 6 }),
        0x10 => Some(Instr { op: Op::Bpl, mode: Mode::Rel, cycles: 2 }),
        0x11 => Some(Instr { op: Op::Ora, mode: Mode::IndY, cycles: 5 }),
        0x15 => Some(Instr { op: Op::Ora, mode: Mode::ZpX, cycles: 4 }),
        0x16 => Some(Instr { op: Op::Asl, mode: Mode::ZpX, cycles: 6 }),
        0x18 => Some(Instr { op: Op::Clc, mode: Mode::Imp, cycles: 2 }),
        0x19 => Some(Instr { op: Op::Ora, mode: Mode::AbsY, cycles: 4 }),
        0x1D => Some(Instr { op: Op::Ora, mode: Mode::AbsX, cycles: 4 }),
        0x1E => Some(Instr { op: Op::Asl, mode: Mode::AbsX, cycles: 7 }),
        0x20 => Some(Instr { op: Op::Jsr, mode: Mode::Abs, cycles: 6 }),
        0x21 => Some(Instr { op: Op::And, mode: Mode::IndX, cycles: 6 }),
        0x24 => Some(Instr { op: Op::Bit, mode: Mode::Zp, cycles: 3 }),
        0x25 => Some(Instr { op: Op::And, mode: Mode::Zp, cycles: 3 }),
        0x26 => Some(Instr { op: Op::Rol, mode: Mode::Zp, cycles: 5 }),
        0x28 => Some(Instr { op: Op::Plp, mode: Mode::Imp, cycles: 4 }),
        0x29 => Some(Instr { op: Op::And, mode: Mode::Imm, cycles: 2 }),
        0x2A => Some(Instr { op: Op::Rol, mode: Mode::Acc, cycles: 2 }),
        0x2C => Some(Instr { op: Op::Bit, mode: Mode::Abs, cycles: 4 }),
        0x2D => Some(Instr { op: Op::And, mode: Mode::Abs, cycles: 4 }),
        0x2E => Some(Instr { op: Op::Rol, mode: Mode::Abs, cycles: 6 }),
        0x30 => Some(Instr { op: Op::Bmi, mode: Mode::Rel, cycles: 2 }),
        0x31 => Some(Instr { op: Op::And, mode: Mode::IndY, cycles: 5 }),
        0x35 => Some(Instr { op: Op::And, mode: Mode::ZpX, cycles: 4 }),
        0x36 => Some(Instr { op: Op::Rol, mode: Mode::ZpX, cycles: 6 }),
        0x38 => Some(Instr { op: Op::Sec, mode: Mode::Imp, cycles: 2 }),
        0x39 => Some(Instr { op: Op::And, mode: Mode::AbsY, cycles: 4 }),
        0x3D => Some(Instr { op: Op::And, mode: Mode::AbsX, cycles: 4 }),
        0x3E => Some(Instr { op: Op::Rol, mode: Mode::AbsX, cycles: 7 }),
        0x40 => Some(Instr { op: Op::Rti, mode: Mode::Imp, cycles: 6 }),
        0x41 => Some(Instr { op: Op::Eor, mode: Mode::IndX, cycles: 6 }),
        0x45 => Some(Instr { op: Op::Eor, mode: Mode::Zp, cycles: 3 }),
        0x46 => Some(Instr { op: Op::Lsr, mode: Mode::Zp, cycles: 5 }),
        0x48 => Some(Instr { op: Op::Pha, mode: Mode::Imp, cycles: 3 }),
        0x49 => Some(Instr { op: Op::Eor, mode: Mode::Imm, cycles: 2 }),
        0x4A => Some(Instr { op: Op::Lsr, mode: Mode::Acc, cycles: 2 }),
        0x4C => Some(Instr { op: Op::Jmp, mode: Mode::Abs, cycles: 3 }),
        0x4D => Some(Instr { op: Op::Eor, mode: Mode::Abs, cycles: 4 }),
        0x4E => Some(Instr { op: Op::Lsr, mode: Mode::Abs, cycles: 6 }),
        0x50 => Some(Instr { op: Op::Bvc, mode: Mode::Rel, cycles: 2 }),
        0x51 => Some(Instr { op: Op::Eor, mode: Mode::IndY, cycles: 5 }),
        0x55 => Some(Instr { op: Op::Eor, mode: Mode::ZpX, cycles: 4 }),
        0x56 => Some(Instr { op: Op::Lsr, mode: Mode::ZpX, cycles: 6 }),
        0x58 => Some(Instr { op: Op::Cli, mode: Mode::Imp, cycles: 2 }),
        0x59 => Some(Instr { op: Op::Eor, mode: Mode::AbsY, cycles: 4 }),
        0x5D => Some(Instr { op: Op::Eor, mode: Mode::AbsX, cycles: 4 }),
        0x5E => Some(Instr { op: Op::Lsr, mode: Mode::AbsX, cycles: 7 }),
        0x60 => Some(Instr { op: Op::Rts, mode: Mode::Imp, cycles: 6 }),
        0x61 => Some(Instr { op: Op::Adc, mode: Mode::IndX, cycles: 6 }),
        0x65 => Some(Instr { op: Op::Adc, mode: Mode::Zp, cycles: 3 }),
        0x66 => Some(Instr { op: Op::Ror, mode: Mode::Zp, cycles: 5 }),
        0x68 => Some(Instr { op: Op::Pla, mode: Mode::Imp, cycles: 4 }),
        0x69 => Some(Instr { op: Op::Adc, mode: Mode::Imm, cycles: 2 }),
        0x6A => Some(Instr { op: Op::Ror, mode: Mode::Acc, cycles: 2 }),
        0x6C => Some(Instr { op: Op::Jmp, mode: Mode::Ind, cycles: 5 }),
        0x6D => Some(Instr { op: Op::Adc, mode: Mode::Abs, cycles: 4 }),
        0x6E => Some(Instr { op: Op::Ror, mode: Mode::Abs, cycles: 6 }),
        0x70 => Some(Instr { op: Op::Bvs, mode: Mode::Rel, cycles: 2 }),
        0x71 => Some(Instr { op: Op::Adc, mode: Mode::IndY, cycles: 5 }),
        0x75 => Some(Instr { op: Op::Adc, mode: Mode::ZpX, cycles: 4 }),
        0x76 => Some(Instr { op: Op::Ror, mode: Mode::ZpX, cycles: 6 }),
        0x78 => Some(Instr { op: Op::Sei, mode: Mode::Imp, cycles: 2 }),
        0x79 => Some(Instr { op: Op::Adc, mode: Mode::AbsY, cycles: 4 }),
        0x7D => Some(Instr { op: Op::Adc, mode: Mode::AbsX, cycles: 4 }),
        0x7E => Some(Instr { op: Op::Ror, mode: Mode::AbsX, cycles: 7 }),
        0x81 => Some(Instr { op: Op::Sta, mode: Mode::IndX, cycles: 6 }),
        0x84 => Some(Instr { op: Op::Sty, mode: Mode::Zp, cycles: 3 }),
        0x85 => Some(Instr { op: Op::Sta, mode: Mode::Zp, cycles: 3 }),
        0x86 => Some(Instr { op: Op::Stx, mode: Mode::Zp, cycles: 3 }),
        0x88 => Some(Instr { op: Op::Dey, mode: Mode::Imp, cycles: 2 }),
        0x8A => Some(Instr { op: Op::Txa, mode: Mode::Imp, cycles: 2 }),
        0x8C => Some(Instr { op: Op::Sty, mode: Mode::Abs, cycles: 4 }),
        0x8D => Some(Instr { op: Op::Sta, mode: Mode::Abs, cycles: 4 }),
        0x8E => Some(Instr { op: Op::Stx, mode: Mode::Abs, cycles: 4 }),
        0x90 => Some(Instr { op: Op::Bcc, mode: Mode::Rel, cycles: 2 }),
        0x91 => Some(Instr { op: Op::Sta, mode: Mode::IndY, cycles: 6 }),
        0x94 => Some(Instr { op: Op::Sty, mode: Mode::ZpX, cycles: 4 }),
        0x95 => Some(Instr { op: Op::Sta, mode: Mode::ZpX, cycles: 4 }),
        0x96 => Some(Instr { op: Op::Stx, mode: Mode::ZpY, cycles: 4 }),
        0x98 => Some(Instr { op: Op::Tya, mode: Mode::Imp, cycles: 2 }),
        0x99 => Some(Instr { op: Op::Sta, mode: Mode::AbsY, cycles: 5 }),
        0x9A => Some(Instr { op: Op::Txs, mode: Mode::Imp, cycles: 2 }),
        0x9D => Some(Instr { op: Op::Sta, mode: Mode::AbsX, cycles: 5 }),
        0xA0 => Some(Instr { op: Op::Ldy, mode: Mode::Imm, cycles: 2 }),
        0xA1 => Some(Instr { op: Op::Lda, mode: Mode::IndX, cycles: 6 }),
        0xA2 => Some(Instr { op: Op::Ldx, mode: Mode::Imm, cycles: 2 }),
        0xA4 => Some(Instr { op: Op::Ldy, mode: Mode::Zp, cycles: 3 }),
        0xA5 => Some(Instr { op: Op::Lda, mode: Mode::Zp, cycles: 3 }),
        0xA6 => Some(Instr { op: Op::Ldx, mode: Mode::Zp, cycles: 3 }),
        0xA8 => Some(Instr { op: Op::Tay, mode: Mode::Imp, cycles: 2 }),
        0xA9 => Some(Instr { op: Op::Lda, mode: Mode::Imm, cycles: 2 }),
        0xAA => Some(Instr { op: Op::Tax, mode: Mode::Imp, cycles: 2 }),
        0xAC => Some(Instr { op: Op::Ldy, mode: Mode::Abs, cycles: 4 }),
        0xAD => Some(Instr { op: Op::Lda, mode: Mode::Abs, cycles: 4 }),
        0xAE => Some(Instr { op: Op::Ldx, mode: Mode::Abs, cycles: 4 }),
        0xB0 => Some(Instr { op: Op::Bcs, mode: Mode::Rel, cycles: 2 }),
        0xB1 => Some(Instr { op: Op::Lda, mode: Mode::IndY, cycles: 5 }),
        0xB4 => Some(Instr { op: Op::Ldy, mode: Mode::ZpX, cycles: 4 }),
        0xB5 => Some(Instr { op: Op::Lda, mode: Mode::ZpX, cycles: 4 }),
        0xB6 => Some(Instr { op: Op::Ldx, mode: Mode::ZpY, cycles: 4 }),
        0xB8 => Some(Instr { op: Op::Clv, mode: Mode::Imp, cycles: 2 }),
        0xB9 => Some(Instr { op: Op::Lda, mode: Mode::AbsY, cycles: 4 }),
        0xBA => Some(Instr { op: Op::Tsx, mode: Mode::Imp, cycles: 2 }),
        0xBC => Some(Instr { op: Op::Ldy, mode: Mode::AbsX, cycles: 4 }),
        0xBD => Some(Instr { op: Op::Lda, mode: Mode::AbsX, cycles: 4 }),
        0xBE => Some(Instr { op: Op::Ldx, mode: Mode::AbsY, cycles: 4 }),
        0xC0 => Some(Instr { op: Op::Cpy, mode: Mode::Imm, cycles: 2 }),
        0xC1 => Some(Instr { op: Op::Cmp, mode: Mode::IndX, cycles: 6 }),
        0xC4 => Some(Instr { op: Op::Cpy, mode: Mode::Zp, cycles: 3 }),
        0xC5 => Some(Instr { op: Op::Cmp, mode: Mode::Zp, cycles: 3 }),
        0xC6 => Some(Instr { op: Op::Dec, mode: Mode::Zp, cycles: 5 }),
        0xC8 => Some(Instr { op: Op::Iny, mode: Mode::Imp, cycles: 2 }),
        0xC9 => Some(Instr { op: Op::Cmp, mode: Mode::Imm, cycles: 2 }),
        0xCA => Some(Instr { op: Op::Dex, mode: Mode::Imp, cycles: 2 }),
        0xCC => Some(Instr { op: Op::Cpy, mode: Mode::Abs, cycles: 4 }),
        0xCD => Some(Instr { op: Op::Cmp, mode: Mode::Abs, cycles: 4 }),
        0xCE => Some(Instr { op: Op::Dec, mode: Mode::Abs, cycles: 6 }),
        0xD0 => Some(Instr { op: Op::Bne, mode: Mode::Rel, cycles: 2 }),
        0xD1 => Some(Instr { op: Op::Cmp, mode: Mode::IndY, cycles: 5 }),
        0xD5 => Some(Instr { op: Op::Cmp, mode: Mode::ZpX, cycles: 4 }),
        0xD6 => Some(Instr { op: Op::Dec, mode: Mode::ZpX, cycles: 6 }),
        0xD8 => Some(Instr { op: Op::Cld, mode: Mode::Imp, cycles: 2 }),
        0xD9 => Some(Instr { op: Op::Cmp, mode: Mode::AbsY, cycles: 4 }),
        0xDD => Some(Instr { op: Op::Cmp, mode: Mode::AbsX, cycles: 4 }),
        0xDE => Some(Instr { op: Op::Dec, mode: Mode::AbsX, cycles: 7 }),
        0xE0 => Some(Instr { op: Op::Cpx, mode: Mode::Imm, cycles: 2 }),
        0xE1 => Some(Instr { op: Op::Sbc, mode: Mode::IndX, cycles: 6 }),
        0xE4 => Some(Instr { op: Op::Cpx, mode: Mode::Zp, cycles: 3 }),
        0xE5 => Some(Instr { op: Op::Sbc, mode: Mode::Zp, cycles: 3 }),
        0xE6 => Some(Instr { op: Op::Inc, mode: Mode::Zp, cycles: 5 }),
        0xE8 => Some(Instr { op: Op::Inx, mode: Mode::Imp, cycles: 2 }),
        0xE9 => Some(Instr { op: Op::Sbc, mode: Mode::Imm, cycles: 2 }),
        0xEA => Some(Instr { op: Op::Nop, mode: Mode::Imp, cycles: 2 }),
        0xEC => Some(Instr { op: Op::Cpx, mode: Mode::Abs, cycles: 4 }),
        0xED => Some(Instr { op: Op::Sbc, mode: Mode::Abs, cycles: 4 }),
        0xEE => Some(Instr { op: Op::Inc, mode: Mode::Abs, cycles: 6 }),
        0xF0 => Some(Instr { op: Op::Beq, mode: Mode::Rel, cycles: 2 }),
        0xF1 => Some(Instr { op: Op::Sbc, mode: Mode::IndY, cycles: 5 }),
        0xF5 => Some(Instr { op: Op::Sbc, mode: Mode::ZpX, cycles: 4 }),
        0xF6 => Some(Instr { op: Op::Inc, mode: Mode::ZpX, cycles: 6 }),
        0xF8 => Some(Instr { op: Op::Sed, mode: Mode::Imp, cycles: 2 }),
        0xF9 => Some(Instr { op: Op::Sbc, mode: Mode::AbsY, cycles: 4 }),
        0xFD => Some(Instr { op: Op::Sbc, mode: Mode::AbsX, cycles: 4 }),
        0xFE => Some(Instr { op: Op::Inc, mode: Mode::AbsX, cycles: 7 }),
        _ => None,
    }
}

/// No documented instruction takes more than seven base cycles.
pub proof fn lemma_cycles_bound(opcode: u8)
    ensures
        instruction(opcode) matches Some(i) ==> 2 <= i.cycles <= 7,
{
    reveal(instruction);
}

/// The operation of an opcode whose two low bits are `01`, picked by its
/// three top bits.
pub open spec fn alu_group_op(opcode: u8) -> Op {
    let top = opcode / 32;
    if top == 0 {
        Op::Ora
    } else if top == 1 {
        Op::And
    } else if top == 2 {
        Op::Eor
    } else if top == 3 {
        Op::Adc
    } else if top == 4 {
        Op::Sta
    } else if top == 5 {
        Op::Lda
    } else if top == 6 {
        Op::Cmp
    } else {
        Op::Sbc
    }
}

/// The addressing mode of an opcode whose two low bits are `01`, picked by
/// its bits 2 to 4.
pub open spec fn alu_group_mode(opcode: u8) -> Mode {
    let mid = (opcode / 4) % 8;
    if mid == 0 {
        Mode::IndX
    } else if mid == 1 {
        Mode::Zp
    } else if mid == 2 {
        Mode::Imm
    } else if mid == 3 {
        Mode::Abs
    } else if mid == 4 {
        Mode::IndY
    } else if mid == 5 {
        Mode::ZpX
    } else if mid == 6 {
        Mode::AbsY
    } else {
        Mode::AbsX
    }
}

/// The opcodes whose two low bits are `01` follow the 6502's regular
/// layout: the three top bits pick the operation (ORA, AND, EOR, ADC, STA,
/// LDA, CMP, SBC), bits 2 to 4 the addressing mode (`(zp,X)`, zp, #imm, abs,
/// `(zp),Y`, `zp,X`, `abs,Y`, `abs,X`); every such opcode is documented but
/// STA #imm. A read takes 2 cycles immediate, 3 in page zero, 4 indexed in
/// page zero or absolute (indexed or not), 5 through `(zp),Y` and 6 through
/// `(zp,X)`; STA takes one more through `(zp),Y` and indexed absolute.
pub proof fn lemma_alu_group_layout(opcode: u8)
    requires
        opcode % 4 == 1,
    ensures
        opcode == 0x89 <==> instruction(opcode) is None,
        opcode != 0x89 ==> (instruction(opcode) matches Some(i) && i.op == alu_group_op(opcode)
            && i.mode == alu_group_mode(opcode)),
        opcode != 0x89 ==> (instruction(opcode) matches Some(i) && i.cycles == match i.mode {
            Mode::Imm => 2u8,
            Mode::Zp => 3u8,
            Mode::ZpX | Mode::Abs => 4u8,
            Mode::AbsX | Mode::AbsY => if i.op == Op::Sta {
                5u8
            } else {
                4u8
            },
            Mode::IndY => if i.op == Op::Sta {
                6u8
            } else {
                5u8
            },
            _ => 6u8,
        }),
{
    reveal(instruction);
}

/// The read-modify-write operation of an opcode whose two low bits are
/// `10`, picked by its three top bits: ASL, ROL, LSR, ROR, then DEC and INC
/// for the two highest.
pub open spec fn rmw_group_op(opcode: u8) -> Op {
    let top = opcode / 32;
    if top == 0 {
        Op::Asl
    } else if top == 1 {
        Op::Rol
    } else if top == 2 {
        Op::Lsr
    } else if top == 3 {
        Op::Ror
    } else if top == 6 {
        Op::Dec
    } else {
        Op::Inc
    }
}

/// The shifts, rotates, INC and DEC follow the 6502's regular layout: with
/// low bits `10`, the three top bits pick the operation and bits 2 to 4 the
/// mode: 1 zp (5 cycles), 3 abs (6), 5 `zp,X` (6), 7 `abs,X` (7), and for the
/// shifts and rotates also 2, the accumulator (2 cycles).
pub proof fn lemma_rmw_group_layout(opcode: u8)
    requires
        opcode % 4 == 2,
        opcode / 32 <= 3 || opcode / 32 >= 6,
        (opcode / 4) % 2 == 1 || ((opcode / 4) % 8 == 2 && opcode / 32 <= 3),
    ensures
        instruction(opcode) == Some(
            Instr {
                op: rmw_group_op(opcode),
                mode: if (opcode / 4) % 8 == 1 {
                    Mode::Zp
                } else if (opcode / 4) % 8 == 2 {
                    Mode::Acc
                } else if (opcode / 4) % 8 == 3 {
                    Mode::Abs
                } else if (opcode / 4) % 8 == 5 {
                    Mode::ZpX
                } else {
                    Mode::AbsX
                },
                cycles: if (opcode / 4) % 8 == 1 {
                    5u8
                } else if (opcode / 4) % 8 == 2 {
                    2u8
                } else if (opcode / 4) % 8 == 7 {
                    7u8
                } else {
                    6u8
                },
            },
        ),
{
    reveal(instruction);
}

/// The number of bytes an instruction in `mode` occupies, opcode included.
pub open spec fn mode_len(mode: Mode) -> u8 {
    match mode {
        Mode::Imp | Mode::Acc => 1,
        Mode::Abs | Mode::AbsX | Mode::AbsY | Mode::Ind => 3,
        _ => 2,
    }
}

/// The length of an instruction in `mode`.
pub fn instruction_len(mode: Mode) -> (r: u8)
    ensures
        r == mode_len(mode),
{
    match mode {
        Mode::Imp | Mode::Acc => 1,
        Mode::Abs | Mode::AbsX | Mode::AbsY | Mode::Ind => 3,
        _ => 2,
    }
}

} // verus!
