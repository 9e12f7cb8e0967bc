use crate::util::{make_word, word_of};
use vstd::prelude::*;

verus! {

/// The kinds of r6502 image file.
#[derive(Clone, Copy, Debug, PartialEq, Eq, Structural)]
pub enum R6502ImageType {
    Module,
    Snapshot,
    System,
}

/// The image type that a header byte stands for: 0, 1 and 2 in
/// declaration order.
pub open spec fn image_type_of(value: u8) -> Option<R6502ImageType> {
    if value == 0 {
        Some(R6502ImageType::Module)
    } else if value == 1 {
        Some(R6502ImageType::Snapshot)
    } else if value == 2 {
        Some(R6502ImageType::System)
    } else {
        None
    }
}

impl R6502ImageType {
    /// The length of the file header of an image of this type.
    pub fn header_len(&self) -> (r: u64)
        ensures
            r == match *self {
                R6502ImageType::Module => 11u64,
                R6502ImageType::Snapshot => 22u64,
                R6502ImageType::System => 9u64,
            },
    {
        match self {
            R6502ImageType::Module => 11,
            R6502ImageType::Snapshot => 22,
            R6502ImageType::System => 9,
        }
    }

    /// The image type that a header byte stands for.
    pub fn from_u8(value: u8) -> (r: Option<R6502ImageType>)
        ensures
            r == image_type_of(value),
    {
        match value {
            0 => Some(R6502ImageType::Module),
            1 => Some(R6502ImageType::Snapshot),
            2 => Some(R6502ImageType::System),
            _ => None,
        }
    }

    /// The header byte of this image type.
    pub fn to_u8(&self) -> (r: u8)
        ensures
            image_type_of(r) == Some(*self),
    {
        match self {
            R6502ImageType::Module => 0,
            R6502ImageType::Snapshot => 1,
            R6502ImageType::System => 2,
        }
    }
}

/// The registers and cycle count that a program starts with.
#[derive(Clone, Copy, Debug, PartialEq, Eq, Structural)]
pub struct CpuState {
    pub pc: u16,
    pub a: u8,
    pub x: u8,
    pub y: u8,
    pub sp: u8,
    pub p: u8,
    pub total_cycles: u64,
}

/// The header of an image that is not in r6502's own format.
#[derive(Clone, Copy, Debug, PartialEq, Eq, Structural)]
pub enum OtherImageHeader {
    /// A cc65 `sim65` program.
    Sim6502 { load: u16, start: u16, sp: u8 },
    /// A listing.
    Listing { load: u16, start: u16 },
    /// Raw bytes without a header.
    Raw,
}

/// The bytes of an image file being read, with a read position.
pub struct ImageReader {
    bytes: Vec<u8>,
    pos: usize,
}

/// The magic bytes that open a `sim65` header: "sim65".
pub open spec fn sim65_magic() -> Seq<u8> {
    seq![0x73u8, 0x69u8, 0x6du8, 0x36u8, 0x35u8]
}

/// Whether the twelve bytes `h` are a `sim65` header of version 2 for the
/// plain 6502 (CPU 0).
pub open spec fn is_sim65_header(h: Seq<u8>) -> bool {
    h.len() == 12 && h.take(5) == sim65_magic() && h[5] == 2 && h[6] == 0
}

impl ImageReader {
    pub fn new(bytes: Vec<u8>) -> (r: ImageReader)
        ensures
            r.bytes() == bytes@,
            r.pos() == 0,
    {
        ImageReader { bytes, pos: 0 }
    }

    pub closed spec fn bytes(&self) -> Seq<u8> {
        self.bytes@
    }

    pub closed spec fn pos(&self) -> nat {
        self.pos as nat
    }

    /// The twelve bytes at the read position, when there are that many.
    pub open spec fn next_header(&self) -> Option<Seq<u8>> {
        if self.pos() + 12 <= self.bytes().len() {
            Some(self.bytes().subrange(self.pos() as int, self.pos() + 12 as int))
        } else {
            None
        }
    }

    /// The read position.
    pub fn position(&self) -> (r: usize)
        ensures
            r == self.pos(),
    {
        self.pos
    }
}

/// The header that `from_reader` finds, and where it leaves the reader: a
/// `sim65` header is consumed; anything else leaves the reader rewound to the
/// start of the file and is raw.
pub open spec fn header_spec(reader: ImageReader) -> (OtherImageHeader, nat) {
    match reader.next_header() {
        Some(h) => if is_sim65_header(h) {
            (
                OtherImageHeader::Sim6502 { load: word_of(h[9], h[8]), start: word_of(h[11], h[10]), sp: h[7] },
                reader.pos() + 12,
            )
        } else {
            (OtherImageHeader::Raw, 0)
        },
        None => (OtherImageHeader::Raw, 0),
    }
}

/// Whether the stack pointer of a `sim65` header at the read position is the
/// 0xFF that the reader insists on (headers of other kinds pass).
pub open spec fn sim65_sp_ok(reader: ImageReader) -> bool {
    match reader.next_header() {
        Some(h) => is_sim65_header(h) ==> h[7] == 0xff,
        None => true,
    }
}

impl OtherImageHeader {
    fn read_sim6502_header(reader: &ImageReader) -> (r: Option<(u16, u16, u8)>)
        ensures
            match reader.next_header() {
                Some(h) => if is_sim65_header(h) {
                    r == Some((word_of(h[9], h[8]), word_of(h[11], h[10]), h[7]))
                } else {
                    r is None
                },
                None => r is None,
            },
    {
        let pos = reader.pos;
        if reader.bytes.len() < 12 || pos > reader.bytes.len() - 12 {
            return None;
        }
        let b = &reader.bytes;
        let ghost h = reader.bytes@.subrange(pos as int, pos + 12);
        let magic_ok = b[pos] == 0x73 && b[pos + 1] == 0x69 && b[pos + 2] == 0x6d && b[pos + 3] == 0x36
            && b[pos + 4] == 0x35;
        if !magic_ok {
            assert(!(h.take(5) =~= sim65_magic()) || h.take(5) != sim65_magic()) by {
                if h.take(5) == sim65_magic() {
                    assert(h.take(5)[0] == h[0]);
                    assert(h.take(5)[1] == h[1]);
                    assert(h.take(5)[2] == h[2]);
                    assert(h.take(5)[3] == h[3]);
                    assert(h.take(5)[4] == h[4]);
                }
            }
            return None;
        }
        assert(h.take(5) =~= sim65_magic());
        if b[pos + 5] != 2 || b[pos + 6] != 0 {
            return None;
        }
        let load = make_word(b[pos + 9], b[pos + 8]);
        let start = make_word(b[pos + 11], b[pos + 10]);
        Some((load, start, b[pos + 7]))
    }

    /// Whether `from_reader` may be called on this reader (see `sim65_sp_ok`).
    pub fn can_read(reader: &ImageReader) -> (r: bool)
        ensures
            r == sim65_sp_ok(*reader),
    {
        match Self::read_sim6502_header(reader) {
            Some((_, _, sp)) => sp == 0xff,
            None => true,
        }
    }

    /// Reads the header of an image that is not in r6502's format: a `sim65`
    /// header when one is at the read position, raw otherwise (see
    /// `header_spec`).
    pub fn from_reader(reader: &mut ImageReader) -> (r: OtherImageHeader)
        requires
            sim65_sp_ok(*old(reader)),
        ensures
            r == header_spec(*old(reader)).0,
            final(reader).bytes() == old(reader).bytes(),
            final(reader).pos() == header_spec(*old(reader)).1,
    {
        match Self::read_sim6502_header(reader) {
            Some((load, start, sp)) => {
                let n = reader.bytes.len();
                assert(reader.pos + 12 <= n);
                reader.pos = reader.pos + 12;
                OtherImageHeader::Sim6502 { load, start, sp }
            },
            None => {
                reader.pos = 0;
                OtherImageHeader::Raw
            },
        }
    }

    /// The registers a program with this header starts with: PC at the start
    /// address (zero for raw images), the stack pointer from a `sim65`
    /// header (zero otherwise), everything else zero.
    pub fn get_initial_cpu_state(&self, reset_addr: u16) -> (r: CpuState)
        ensures
            r == (match *self {
                OtherImageHeader::Sim6502 { start, sp, .. } => CpuState {
                    pc: start,
                    a: 0,
                    x: 0,
                    y: 0,
                    sp,
                    p: 0,
                    total_cycles: 0,
                },
                OtherImageHeader::Listing { start, .. } => CpuState {
                    pc: start,
                    a: 0,
                    x: 0,
                    y: 0,
                    sp: 0,
                    p: 0,
                    total_cycles: 0,
                },
                OtherImageHeader::Raw => CpuState {
                    pc: 0,
                    a: 0,
                    x: 0,
                    y: 0,
                    sp: 0,
                    p: 0,
                    total_cycles: 0,
                },
            }),
    {
        match self {
            OtherImageHeader::Sim6502 { start, sp, .. } => CpuState {
                pc: *start,
                a: 0x00,
                x: 0x00,
                y: 0x00,
                sp: *sp,
                p: 0x00,
                total_cycles: 0,
            },
            OtherImageHeader::Listing { start, .. } => CpuState {
                pc: *start,
                a: 0x00,
                x: 0x00,
                y: 0x00,
                sp: 0x00,
                p: 0x00,
                total_cycles: 0,
            },
            OtherImageHeader::Raw => CpuState {
                pc: 0x0000,
                a: 0x00,
                x: 0x00,
                y: 0x00,
                sp: 0x00,
                p: 0x00,
                total_cycles: 0,
            },
        }
    }
}

/// The `n` bytes of `v`, least significant first.
pub open spec fn le_bytes(v: nat, n: nat) -> Seq<u8>
    decreases n,
{
    if n == 0 {
        Seq::empty()
    } else {
        seq![(v % 256) as u8] + le_bytes(v / 256, (n - 1) as nat)
    }
}

/// A snapshot file: the magic number and the snapshot image type (1), the
/// machine tag, the program counter, A, X, Y, the stack pointer and P, the
/// cycle count (numbers little-endian), then the bytes of memory.
pub open spec fn snapshot_spec(magic: u16, tag: Seq<u8>, cpu: CpuState, memory: Seq<u8>) -> Seq<u8> {
    le_bytes(magic as nat, 2) + seq![1u8] + tag + le_bytes(cpu.pc as nat, 2) + seq![
        cpu.a,
        cpu.x,
        cpu.y,
        cpu.sp,
        cpu.p,
    ] + le_bytes(cpu.total_cycles as nat, 8) + memory
}

fn push_le(out: &mut Vec<u8>, value: u64, n: usize)
    requires
        n <= 8,
    ensures
        final(out)@ == old(out)@ + le_bytes(value as nat, n as nat),
{
    let ghost target = old(out)@ + le_bytes(value as nat, n as nat);
    let mut cur = value;
    let mut k: usize = 0;
    assert(old(out)@ + le_bytes(value as nat, n as nat) == target);
    while k < n
        invariant
            k <= n,
            out@ + le_bytes(cur as nat, (n - k) as nat) == target,
        decreases n - k,
    {
        let ghost before = out@;
        out.push((cur % 256) as u8);
        assert(le_bytes(cur as nat, (n - k) as nat) == seq![(cur % 256) as u8] + le_bytes(
            (cur / 256) as nat,
            (n - k - 1) as nat,
        ));
        assert(out@ + le_bytes((cur / 256) as nat, (n - k - 1) as nat) =~= before + le_bytes(
            cur as nat,
            (n - k) as nat,
        ));
        cur = cur / 256;
        k += 1;
    }
    assert(le_bytes(cur as nat, 0) =~= Seq::<u8>::empty());
    assert(out@ =~= target);
}

/// The bytes of a snapshot file (see `snapshot_spec`).
pub fn snapshot_bytes(magic: u16, machine_tag: &[u8; 4], cpu: &CpuState, memory: &Vec<u8>) -> (r: Vec<u8>)
    ensures
        r@ == snapshot_spec(magic, machine_tag@, *cpu, memory@),
{
    let mut out: Vec<u8> = Vec::new();
    push_le(&mut out, magic as u64, 2);
    out.push(1);
    out.push(machine_tag[0]);
    out.push(machine_tag[1]);
    out.push(machine_tag[2]);
    out.push(machine_tag[3]);
    push_le(&mut out, cpu.pc as u64, 2);
    out.push(cpu.a);
    out.push(cpu.x);
    out.push(cpu.y);
    out.push(cpu.sp);
    out.push(cpu.p);
    push_le(&mut out, cpu.total_cycles, 8);
    let ghost head = out@;
    let mut i: usize = 0;
    while i < memory.len()
        invariant
            i <= memory@.len(),
            out@ == head + memory@.take(i as int),
        decreases memory@.len() - i,
    {
        out.push(memory[i]);
        assert(out@ =~= head + memory@.take(i + 1));
        i += 1;
    }
    assert(memory@.take(i as int) =~= memory@);
    assert(machine_tag@ =~= seq![machine_tag[0], machine_tag[1], machine_tag[2], machine_tag[3]]);
    assert(out@ =~= snapshot_spec(magic, machine_tag@, *cpu, memory@));
    out
}

} // verus!
