use crate::memory::Memory;
use crate::reg::Reg;
use crate::util::{make_word, split_word, word_of, hi_byte, lo_byte, wrap8, wrap16};
use vstd::prelude::*;

verus! {

/// Page one of memory holds the stack.
pub const STACK_BASE: u16 = 0x0100;

/// The address of the stack slot that `sp` designates.
pub open spec fn stack_slot(sp: u8) -> int {
    STACK_BASE as int + sp as int
}

/// The registers and the memory that the processor works on.
pub struct VmState {
    pub reg: Reg,
    pub memory: Memory,
}

/// Memory after pushing `value` at `sp`.
pub open spec fn pushed(mem: Seq<u8>, sp: u8, value: u8) -> Seq<u8> {
    mem.update(stack_slot(sp), value)
}

/// Memory after pushing the word `value` (high byte first) at `sp`.
pub open spec fn pushed_word(mem: Seq<u8>, sp: u8, value: u16) -> Seq<u8> {
    pushed(pushed(mem, sp, hi_byte(value)), wrap8(sp - 1), lo_byte(value))
}

/// The word on top of the stack when the stack pointer is `sp`: low byte in
/// the slot above `sp`, high byte in the one above that.
pub open spec fn top_word(mem: Seq<u8>, sp: u8) -> u16 {
    word_of(mem[stack_slot(wrap8(sp + 2))], mem[stack_slot(wrap8(sp + 1))])
}

impl VmState {
    pub open spec fn wf(&self) -> bool {
        self.memory.wf()
    }

    pub fn new(reg: Reg, memory: Memory) -> (r: Self)
        ensures
            r.reg == reg,
            r.memory == memory,
    {
        Self { reg, memory }
    }

    /// Stores `value` in the current stack slot and moves the stack pointer down.
    pub fn push(&mut self, value: u8)
        requires
            old(self).wf(),
        ensures
            final(self).wf(),
            final(self).reg == (Reg { sp: wrap8(old(self).reg.sp - 1), ..old(self).reg }),
            final(self).memory@ == pushed(old(self).memory@, old(self).reg.sp, value),
    {
        self.set_stack_value(value);
        self.reg.sp = self.reg.sp.wrapping_sub(1);
    }

    /// Moves the stack pointer up and reads the stack slot it then designates.
    pub fn pull(&mut self) -> (r: u8)
        requires
            old(self).wf(),
        ensures
            final(self).wf(),
            final(self).reg == (Reg { sp: wrap8(old(self).reg.sp + 1), ..old(self).reg }),
            final(self).memory@ == old(self).memory@,
            r == old(self).memory@[stack_slot(wrap8(old(self).reg.sp + 1))],
    {
        self.reg.sp = self.reg.sp.wrapping_add(1);
        self.get_stack_value()
    }

    /// Pushes a word, high byte first.
    pub fn push_word(&mut self, value: u16)
        requires
            old(self).wf(),
        ensures
            final(self).wf(),
            final(self).reg == (Reg { sp: wrap8(old(self).reg.sp - 2), ..old(self).reg }),
            final(self).memory@ == pushed_word(old(self).memory@, old(self).reg.sp, value),
    {
        let (hi, lo) = split_word(value);
        self.push(hi);
        self.push(lo);
    }

    /// Pulls a word, low byte first.
    pub fn pull_word(&mut self) -> (r: u16)
        requires
            old(self).wf(),
        ensures
            final(self).wf(),
            final(self).reg == (Reg { sp: wrap8(old(self).reg.sp + 2), ..old(self).reg }),
            final(self).memory@ == old(self).memory@,
            r == top_word(old(self).memory@, old(self).reg.sp),
    {
        let lo = self.pull();
        let hi = self.pull();
        make_word(hi, lo)
    }

    /// The word just above the stack pointer, without moving it.
    pub fn peek_word(&self) -> (r: u16)
        requires
            self.wf(),
        ensures
            r == word_of(
                self.memory@[stack_slot(self.reg.sp) + 2],
                self.memory@[stack_slot(self.reg.sp) + 1],
            ),
    {
        self.peek_back_word(0x00)
    }

    /// The word `offset` bytes above the stack pointer, without moving it.
    /// The addresses are computed on the full 16-bit bus, so they may run past
    /// the end of the stack page.
    pub fn peek_back_word(&self, offset: u8) -> (r: u16)
        requires
            self.wf(),
        ensures
            r == word_of(
                self.memory@[stack_slot(self.reg.sp) + offset + 2],
                self.memory@[stack_slot(self.reg.sp) + offset + 1],
            ),
    {
        let stack_addr = (STACK_BASE + self.reg.sp as u16).wrapping_add(offset as u16);
        let hi = self.memory.load(stack_addr.wrapping_add(2));
        let lo = self.memory.load(stack_addr.wrapping_add(1));
        make_word(hi, lo)
    }

    /// The byte in the stack slot that the stack pointer designates.
    pub fn get_stack_value(&self) -> (r: u8)
        requires
            self.wf(),
        ensures
            r == self.memory@[stack_slot(self.reg.sp)],
    {
        self.memory.load(STACK_BASE.wrapping_add(self.reg.sp as u16))
    }

    /// Writes the stack slot that the stack pointer designates.
    pub fn set_stack_value(&mut self, value: u8)
        requires
            old(self).wf(),
        ensures
            final(self).wf(),
            final(self).reg == old(self).reg,
            final(self).memory@ == pushed(old(self).memory@, old(self).reg.sp, value),
    {
        self.memory.store(STACK_BASE.wrapping_add(self.reg.sp as u16), value)
    }
}

/// Pulling right after pushing gives back the pushed byte and restores the
/// stack pointer.
pub proof fn lemma_pull_after_push(mem: Seq<u8>, sp: u8, value: u8)
    requires
        mem.len() == 0x10000,
    ensures
        wrap8(wrap8(sp - 1) + 1) == sp,
        pushed(mem, sp, value)[stack_slot(wrap8(wrap8(sp - 1) + 1))] == value,
{
}

/// Pulling a word right after pushing it gives back the pushed word and
/// restores the stack pointer.
pub proof fn lemma_pull_word_after_push_word(mem: Seq<u8>, sp: u8, value: u16)
    requires
        mem.len() == 0x10000,
    ensures
        wrap8(wrap8(sp - 2) + 2) == sp,
        top_word(pushed_word(mem, sp, value), wrap8(sp - 2)) == value,
{
    crate::util::lemma_make_split(value);
}

} // verus!
