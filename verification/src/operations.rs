use crate::alu::{
    carry_in, lemma_adc_binary_sum, lemma_bit_test_flags, lemma_compare_flags, lemma_sbc_binary_difference,
    lemma_shifts,
};
use crate::execute::{
    effect_alu, effect_count_transfer, effect_flags, effect_load_store, effect_shift, Machine,
};
use crate::instruction::{Mode, Op};
use crate::reg::{flag, lemma_with_flag, FLAG_C, FLAG_D, FLAG_I, FLAG_N, FLAG_V, FLAG_Z};
use vstd::prelude::*;

verus! {

/// A store followed by the matching load at the same address gives the
/// register back (STA/LDA, STX/LDX, STY/LDY); the store writes that one
/// byte of memory and nothing else, and changes no register.
pub proof fn lemma_store_then_load(m: Machine, addr: u16)
    requires
        m.mem.len() == 0x10000,
    ensures
        effect_load_store(Op::Lda, effect_load_store(Op::Sta, m, addr), addr).reg.a == m.reg.a,
        effect_load_store(Op::Ldx, effect_load_store(Op::Stx, m, addr), addr).reg.x == m.reg.x,
        effect_load_store(Op::Ldy, effect_load_store(Op::Sty, m, addr), addr).reg.y == m.reg.y,
        effect_load_store(Op::Sta, m, addr).reg == m.reg,
        effect_load_store(Op::Stx, m, addr).reg == m.reg,
        effect_load_store(Op::Sty, m, addr).reg == m.reg,
        forall|i: int|
            0 <= i < 0x10000 && i != addr ==> effect_load_store(Op::Sta, m, addr).mem[i] == m.mem[i]
                && effect_load_store(Op::Stx, m, addr).mem[i] == m.mem[i] && effect_load_store(
                Op::Sty,
                m,
                addr,
            ).mem[i] == m.mem[i],
        effect_load_store(Op::Sta, m, addr).mem.len() == 0x10000,
{
}

/// A load sets Z exactly when the loaded byte is zero and N exactly when its
/// bit 7 is set, and leaves C, V, D and I as they were.
pub proof fn lemma_load_flags(m: Machine, addr: u16)
    requires
        m.mem.len() == 0x10000,
    ensures
        ({
            let v = m.mem[addr as int];
            let q = effect_load_store(Op::Lda, m, addr).reg.p;
            &&& effect_load_store(Op::Lda, m, addr).reg.a == v
            &&& effect_load_store(Op::Ldx, m, addr).reg.x == v
            &&& effect_load_store(Op::Ldy, m, addr).reg.y == v
            &&& effect_load_store(Op::Ldx, m, addr).reg.p == q
            &&& effect_load_store(Op::Ldy, m, addr).reg.p == q
            &&& flag(q, FLAG_Z) == (v == 0)
            &&& flag(q, FLAG_N) == (v >= 128)
            &&& flag(q, FLAG_C) == flag(m.reg.p, FLAG_C)
            &&& flag(q, FLAG_V) == flag(m.reg.p, FLAG_V)
        }),
{
    let v = m.mem[addr as int];
    let p = m.reg.p;
    let p1 = crate::reg::with_flag(p, FLAG_Z, v == 0);
    lemma_with_flag(p, FLAG_Z, v == 0, FLAG_C);
    lemma_with_flag(p, FLAG_Z, v == 0, FLAG_V);
    lemma_with_flag(p1, FLAG_N, v >= 0x80, FLAG_Z);
    lemma_with_flag(p1, FLAG_N, v >= 0x80, FLAG_N);
    lemma_with_flag(p1, FLAG_N, v >= 0x80, FLAG_C);
    lemma_with_flag(p1, FLAG_N, v >= 0x80, FLAG_V);
    lemma_with_flag(p, FLAG_Z, v == 0, FLAG_Z);
}

/// Increments and decrements count modulo 256 and undo each other: INC then
/// DEC (or DEC then INC) of a byte of memory gives it back, and so do INX
/// then DEX and INY then DEY for the index registers.
pub proof fn lemma_increment_decrement(m: Machine, addr: u16)
    requires
        m.mem.len() == 0x10000,
    ensures
        effect_count_transfer(Op::Inc, m, addr).mem[addr as int] as int == (m.mem[addr as int] + 1)
            % 256,
        effect_count_transfer(Op::Dec, m, addr).mem[addr as int] as int == (m.mem[addr as int] + 255)
            % 256,
        effect_count_transfer(Op::Inx, m, addr).reg.x as int == (m.reg.x + 1) % 256,
        effect_count_transfer(Op::Dex, m, addr).reg.x as int == (m.reg.x + 255) % 256,
        effect_count_transfer(Op::Iny, m, addr).reg.y as int == (m.reg.y + 1) % 256,
        effect_count_transfer(Op::Dey, m, addr).reg.y as int == (m.reg.y + 255) % 256,
        effect_count_transfer(Op::Dec, effect_count_transfer(Op::Inc, m, addr), addr).mem == m.mem,
        effect_count_transfer(Op::Inc, effect_count_transfer(Op::Dec, m, addr), addr).mem == m.mem,
        effect_count_transfer(Op::Dex, effect_count_transfer(Op::Inx, m, addr), addr).reg.x == m.reg.x,
        effect_count_transfer(Op::Dey, effect_count_transfer(Op::Iny, m, addr), addr).reg.y == m.reg.y,
{
    let v = m.mem[addr as int];
    let m1 = effect_count_transfer(Op::Inc, m, addr);
    assert(m1.mem[addr as int] as int == (v + 1) % 256);
    assert(effect_count_transfer(Op::Dec, m1, addr).mem =~= m.mem);
    let m2 = effect_count_transfer(Op::Dec, m, addr);
    assert(m2.mem[addr as int] as int == (v + 255) % 256);
    assert(effect_count_transfer(Op::Inc, m2, addr).mem =~= m.mem);
}

/// A transfer and the transfer back give the first register back: TAX then
/// TXA, TAY then TYA, TXA then TAX, TYA then TAY, TXS then TSX. A transfer
/// sets Z and N from the value moved, except TXS, which changes no flag.
pub proof fn lemma_transfers(m: Machine, addr: u16)
    ensures
        effect_count_transfer(Op::Txa, effect_count_transfer(Op::Tax, m, addr), addr).reg.a == m.reg.a,
        effect_count_transfer(Op::Tax, m, addr).reg.x == m.reg.a,
        effect_count_transfer(Op::Tya, effect_count_transfer(Op::Tay, m, addr), addr).reg.a == m.reg.a,
        effect_count_transfer(Op::Tay, m, addr).reg.y == m.reg.a,
        effect_count_transfer(Op::Tax, effect_count_transfer(Op::Txa, m, addr), addr).reg.x == m.reg.x,
        effect_count_transfer(Op::Txa, m, addr).reg.a == m.reg.x,
        effect_count_transfer(Op::Tay, effect_count_transfer(Op::Tya, m, addr), addr).reg.y == m.reg.y,
        effect_count_transfer(Op::Tya, m, addr).reg.a == m.reg.y,
        effect_count_transfer(Op::Tsx, effect_count_transfer(Op::Txs, m, addr), addr).reg.x == m.reg.x,
        effect_count_transfer(Op::Txs, m, addr).reg.sp == m.reg.x,
        effect_count_transfer(Op::Txs, m, addr).reg.p == m.reg.p,
        effect_count_transfer(Op::Tsx, m, addr).reg.x == m.reg.sp,
        flag(effect_count_transfer(Op::Tax, m, addr).reg.p, FLAG_Z) == (m.reg.a == 0),
        flag(effect_count_transfer(Op::Tax, m, addr).reg.p, FLAG_N) == (m.reg.a >= 128),
{
    let p = m.reg.p;
    let a = m.reg.a;
    let p1 = crate::reg::with_flag(p, FLAG_Z, a == 0);
    lemma_with_flag(p1, FLAG_N, a >= 0x80, FLAG_Z);
    lemma_with_flag(p1, FLAG_N, a >= 0x80, FLAG_N);
    lemma_with_flag(p, FLAG_Z, a == 0, FLAG_Z);
}

/// AND keeps only the bits set in both the accumulator and the operand, ORA
/// the bits set in either, and EOR with the same operand twice gives the
/// accumulator back; none of them changes C or V.
pub proof fn lemma_logic(m: Machine, addr: u16)
    ensures
        ({
            let a = m.reg.a;
            let v = m.mem[addr as int];
            let and = effect_alu(Op::And, m, addr).reg.a;
            let or = effect_alu(Op::Ora, m, addr).reg.a;
            &&& and & a == and && and & v == and && and | (a & v) == and
            &&& or | a == or && or | v == or && or & (a | v) == or
            &&& effect_alu(Op::Eor, effect_alu(Op::Eor, m, addr), addr).reg.a == a
            &&& effect_alu(Op::Eor, m, addr).mem == m.mem
        }),
{
    let a = m.reg.a;
    let v = m.mem[addr as int];
    assert((a & v) & a == (a & v) && (a & v) & v == (a & v)) by (bit_vector);
    assert((a | v) | a == (a | v) && (a | v) | v == (a | v)) by (bit_vector);
    assert((a ^ v) ^ v == a) by (bit_vector);
    assert((a & v) | (a & v) == (a & v) && (a | v) & (a | v) == (a | v)) by (bit_vector);
}

/// CLC and SEC clear and set C, CLD and SED D, CLI and SEI I, CLV clears V;
/// each leaves every other flag as it was.
pub proof fn lemma_flag_operations(m: Machine)
    ensures
        !flag(effect_flags(Op::Clc, m).reg.p, FLAG_C),
        flag(effect_flags(Op::Sec, m).reg.p, FLAG_C),
        !flag(effect_flags(Op::Cld, m).reg.p, FLAG_D),
        flag(effect_flags(Op::Sed, m).reg.p, FLAG_D),
        !flag(effect_flags(Op::Cli, m).reg.p, FLAG_I),
        flag(effect_flags(Op::Sei, m).reg.p, FLAG_I),
        !flag(effect_flags(Op::Clv, m).reg.p, FLAG_V),
        flag(effect_flags(Op::Clc, m).reg.p, FLAG_Z) == flag(m.reg.p, FLAG_Z),
        flag(effect_flags(Op::Sec, m).reg.p, FLAG_D) == flag(m.reg.p, FLAG_D),
        flag(effect_flags(Op::Sed, m).reg.p, FLAG_C) == flag(m.reg.p, FLAG_C),
        flag(effect_flags(Op::Cld, m).reg.p, FLAG_C) == flag(m.reg.p, FLAG_C),
        flag(effect_flags(Op::Clv, m).reg.p, FLAG_C) == flag(m.reg.p, FLAG_C),
        flag(effect_flags(Op::Sei, m).reg.p, FLAG_D) == flag(m.reg.p, FLAG_D),
        flag(effect_flags(Op::Cli, m).reg.p, FLAG_D) == flag(m.reg.p, FLAG_D),
{
    let p = m.reg.p;
    lemma_with_flag(p, FLAG_C, false, FLAG_C);
    lemma_with_flag(p, FLAG_C, false, FLAG_Z);
    lemma_with_flag(p, FLAG_C, true, FLAG_C);
    lemma_with_flag(p, FLAG_C, true, FLAG_D);
    lemma_with_flag(p, FLAG_D, false, FLAG_D);
    lemma_with_flag(p, FLAG_D, false, FLAG_C);
    lemma_with_flag(p, FLAG_D, true, FLAG_D);
    lemma_with_flag(p, FLAG_D, true, FLAG_C);
    lemma_with_flag(p, FLAG_I, false, FLAG_I);
    lemma_with_flag(p, FLAG_I, false, FLAG_D);
    lemma_with_flag(p, FLAG_I, true, FLAG_I);
    lemma_with_flag(p, FLAG_I, true, FLAG_D);
    lemma_with_flag(p, FLAG_V, false, FLAG_V);
    lemma_with_flag(p, FLAG_V, false, FLAG_C);
}

/// CMP, CPX and CPY compare A, X and Y respectively with the byte at the
/// address: C is set exactly when the register is at least the byte and Z
/// exactly when they are equal. With D clear, ADC and SBC leave A the sum
/// (the difference) with the carry (less the borrow) modulo 256, and BIT
/// sets Z exactly when A and the byte share no bit. None of them writes
/// memory, and only ADC and SBC change A.
pub proof fn lemma_arithmetic_operations(m: Machine, addr: u16)
    ensures
        ({
            let v = m.mem[addr as int];
            let r = m.reg;
            let c = carry_in(r.p);
            &&& flag(effect_alu(Op::Cmp, m, addr).reg.p, FLAG_C) == (r.a >= v)
            &&& flag(effect_alu(Op::Cmp, m, addr).reg.p, FLAG_Z) == (r.a == v)
            &&& flag(effect_alu(Op::Cpx, m, addr).reg.p, FLAG_C) == (r.x >= v)
            &&& flag(effect_alu(Op::Cpx, m, addr).reg.p, FLAG_Z) == (r.x == v)
            &&& flag(effect_alu(Op::Cpy, m, addr).reg.p, FLAG_C) == (r.y >= v)
            &&& flag(effect_alu(Op::Cpy, m, addr).reg.p, FLAG_Z) == (r.y == v)
            &&& effect_alu(Op::Cmp, m, addr).reg.a == r.a
            &&& effect_alu(Op::Cpx, m, addr).reg.x == r.x
            &&& effect_alu(Op::Cpy, m, addr).reg.y == r.y
            &&& !flag(r.p, FLAG_D) ==> effect_alu(Op::Adc, m, addr).reg.a as int == (r.a + v + c)
                % 256
            &&& !flag(r.p, FLAG_D) ==> effect_alu(Op::Sbc, m, addr).reg.a as int == (r.a - v - (1
                - c) + 256) % 256
            &&& flag(effect_alu(Op::Bit, m, addr).reg.p, FLAG_Z) == (r.a & v == 0)
            &&& effect_alu(Op::Bit, m, addr).reg.a == r.a
            &&& effect_alu(Op::Adc, m, addr).mem == m.mem
            &&& effect_alu(Op::Sbc, m, addr).mem == m.mem
            &&& effect_alu(Op::Cmp, m, addr).mem == m.mem
        }),
{
    let v = m.mem[addr as int];
    let r = m.reg;
    lemma_compare_flags(r.p, r.a, v);
    lemma_compare_flags(r.p, r.x, v);
    lemma_compare_flags(r.p, r.y, v);
    lemma_bit_test_flags(r.p, r.a, v);
    if !flag(r.p, FLAG_D) {
        lemma_adc_binary_sum(r.p, r.a, v);
        lemma_sbc_binary_difference(r.p, r.a, v);
    }
}

/// ASL, LSR, ROL and ROR each do their own shift, of A in accumulator mode
/// and of the byte at the address otherwise: ASL doubles, LSR halves, ROL
/// doubles and adds the carry, ROR halves and puts the carry in bit 7.
pub proof fn lemma_shift_operations(m: Machine, mode: Mode, addr: u16)
    requires
        m.mem.len() == 0x10000,
    ensures
        ({
            let input = if mode == Mode::Acc {
                m.reg.a
            } else {
                m.mem[addr as int]
            };
            let c = carry_in(m.reg.p);
            let out = |op: Op|
                if mode == Mode::Acc {
                    effect_shift(op, mode, m, addr).reg.a
                } else {
                    effect_shift(op, mode, m, addr).mem[addr as int]
                };
            &&& out(Op::Asl) as int == (2 * input) % 256
            &&& out(Op::Lsr) as int == input / 2
            &&& out(Op::Rol) as int == (2 * input + c) % 256
            &&& out(Op::Ror) as int == input / 2 + 128 * c
            &&& flag(effect_shift(Op::Asl, mode, m, addr).reg.p, FLAG_C) == (input >= 128)
            &&& flag(effect_shift(Op::Lsr, mode, m, addr).reg.p, FLAG_C) == (input % 2 == 1)
        }),
{
    let input = if mode == Mode::Acc {
        m.reg.a
    } else {
        m.mem[addr as int]
    };
    lemma_shifts(m.reg.p, input);
}

} // verus!
