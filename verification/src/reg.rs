use vstd::prelude::*;

verus! {

/// Carry flag.
pub const FLAG_C: u8 = 0x01;
/// Zero flag.
pub const FLAG_Z: u8 = 0x02;
/// Interrupt-disable flag.
pub const FLAG_I: u8 = 0x04;
/// Decimal-mode flag.
pub const FLAG_D: u8 = 0x08;
/// Break flag (only meaningful in copies of P pushed to the stack).
pub const FLAG_B: u8 = 0x10;
/// The unused bit of P, which reads as one on real hardware.
pub const FLAG_ALWAYS_ONE: u8 = 0x20;
/// Overflow flag.
pub const FLAG_V: u8 = 0x40;
/// Negative flag.
pub const FLAG_N: u8 = 0x80;

/// The registers of the 6502.
#[derive(Clone, Copy, Debug, PartialEq, Eq, Structural)]
pub struct Reg {
    pub a: u8,
    pub x: u8,
    pub y: u8,
    pub sp: u8,
    pub pc: u16,
    pub p: u8,
}

impl Default for Reg {
    fn default() -> (r: Self)
        ensures
            r == reg_default(),
    {
        Reg { a: 0, x: 0, y: 0, sp: 0, pc: 0, p: 0 }
    }
}

/// The registers at power-on: everything zero.
pub open spec fn reg_default() -> Reg {
    Reg { a: 0, x: 0, y: 0, sp: 0, pc: 0, p: 0 }
}

/// Whether the flag (or flags) `mask` is set in `p`.
pub open spec fn flag(p: u8, mask: u8) -> bool {
    p & mask != 0
}

/// `p` with the bits of `mask` set when `on` holds and cleared otherwise.
pub open spec fn with_flag(p: u8, mask: u8, on: bool) -> u8 {
    if on {
        p | mask
    } else {
        p & !mask
    }
}

/// `p` with Z and N set from `value`.
pub open spec fn with_nz(p: u8, value: u8) -> u8 {
    with_flag(with_flag(p, FLAG_Z, value == 0), FLAG_N, value >= 0x80)
}

/// Reads one flag of P.
pub fn get_flag(p: u8, mask: u8) -> (r: bool)
    ensures
        r == flag(p, mask),
{
    p & mask != 0
}

/// Sets or clears a flag of P.
pub fn set_flag(p: u8, mask: u8, on: bool) -> (r: u8)
    ensures
        r == with_flag(p, mask, on),
{
    if on {
        p | mask
    } else {
        p & !mask
    }
}

/// Sets Z and N from a value.
pub fn set_nz(p: u8, value: u8) -> (r: u8)
    ensures
        r == with_nz(p, value),
{
    set_flag(set_flag(p, FLAG_Z, value == 0), FLAG_N, value >= 0x80)
}

/// Setting a single flag bit makes it read back as set, clearing makes it read
/// back as clear, and every other single-bit flag keeps its value.
pub proof fn lemma_with_flag(p: u8, mask: u8, on: bool, other: u8)
    requires
        mask == FLAG_C || mask == FLAG_Z || mask == FLAG_I || mask == FLAG_D || mask == FLAG_B
            || mask == FLAG_ALWAYS_ONE || mask == FLAG_V || mask == FLAG_N,
        other == FLAG_C || other == FLAG_Z || other == FLAG_I || other == FLAG_D || other
            == FLAG_B || other == FLAG_ALWAYS_ONE || other == FLAG_V || other == FLAG_N,
    ensures
        flag(with_flag(p, mask, on), mask) == on,
        other != mask ==> flag(with_flag(p, mask, on), other) == flag(p, other),
{
    assert(on ==> (p | mask) & mask != 0) by (bit_vector)
        requires
            mask != 0,
    ;
    assert((p & !mask) & mask == 0) by (bit_vector);
    assert(other != mask ==> ((p | mask) & other != 0) == (p & other != 0)) by (bit_vector)
        requires
            mask == 1 || mask == 2 || mask == 4 || mask == 8 || mask == 16 || mask == 32 || mask
                == 64 || mask == 128,
            other == 1 || other == 2 || other == 4 || other == 8 || other == 16 || other == 32
                || other == 64 || other == 128,
    ;
    assert(other != mask ==> ((p & !mask) & other != 0) == (p & other != 0)) by (bit_vector)
        requires
            mask == 1 || mask == 2 || mask == 4 || mask == 8 || mask == 16 || mask == 32 || mask
                == 64 || mask == 128,
            other == 1 || other == 2 || other == 4 || other == 8 || other == 16 || other == 32
                || other == 64 || other == 128,
    ;
}

} // verus!
