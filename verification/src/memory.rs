use vstd::prelude::*;

verus! {

/// The number of addressable bytes.
pub const MEMORY_SIZE: usize = 0x10000;

/// The 64 KiB address space of the 6502.
pub struct Memory {
    bytes: Vec<u8>,
}

impl View for Memory {
    type V = Seq<u8>;

    closed spec fn view(&self) -> Seq<u8> {
        self.bytes@
    }
}

impl Memory {
    /// The memory holds exactly one byte per 16-bit address.
    pub closed spec fn wf(&self) -> bool {
        self.bytes@.len() == MEMORY_SIZE
    }

    /// Zero-filled memory.
    pub fn new() -> (r: Self)
        ensures
            r.wf(),
            r@.len() == MEMORY_SIZE,
            forall|i: int| 0 <= i < MEMORY_SIZE ==> r@[i] == 0,
    {
        let mut bytes: Vec<u8> = Vec::new();
        while bytes.len() < MEMORY_SIZE
            invariant
                bytes@.len() <= MEMORY_SIZE,
                forall|i: int| 0 <= i < bytes@.len() ==> bytes@[i] == 0,
            decreases MEMORY_SIZE - bytes@.len(),
        {
            bytes.push(0);
        }
        Memory { bytes }
    }

    /// The length of the view of well-formed memory.
    pub proof fn lemma_wf_len(&self)
        requires
            self.wf(),
        ensures
            self@.len() == MEMORY_SIZE,
    {
    }

    /// The byte at `addr`.
    pub fn load(&self, addr: u16) -> (r: u8)
        requires
            self.wf(),
        ensures
            r == self@[addr as int],
    {
        self.bytes[addr as usize]
    }

    /// Writes `value` at `addr`.
    pub fn store(&mut self, addr: u16, value: u8)
        requires
            old(self).wf(),
        ensures
            final(self).wf(),
            final(self)@ == old(self)@.update(addr as int, value),
    {
        self.bytes.set(addr as usize, value);
    }
}

/// A load gives back what the last store to the same address wrote; a store
/// leaves every other address, and the size of memory, as they were.
pub proof fn lemma_load_after_store(mem: Seq<u8>, addr: u16, value: u8, other: u16)
    requires
        mem.len() == MEMORY_SIZE,
    ensures
        mem.update(addr as int, value).len() == MEMORY_SIZE,
        mem.update(addr as int, value)[addr as int] == value,
        other != addr ==> mem.update(addr as int, value)[other as int] == mem[other as int],
{
}

} // verus!
