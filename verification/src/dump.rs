use crate::text::{hex_text, push_char, push_hex};
use vstd::prelude::*;

verus! {

/// The number of bytes on one line of a memory dump.
pub const DUMP_CHUNK_SIZE: usize = 16;

/// How a byte shows in the character column of a dump: printable ASCII as
/// itself, anything else as `.`.
pub open spec fn dump_char(b: u8) -> char {
    if 32 <= b <= 126 {
        b as char
    } else {
        '.'
    }
}

/// Each byte as a space and two upper-case hexadecimal digits.
pub open spec fn hex_bytes(bytes: Seq<u8>) -> Seq<char>
    decreases bytes.len(),
{
    if bytes.len() == 0 {
        Seq::empty()
    } else {
        hex_bytes(bytes.drop_last()) + " "@ + hex_text(bytes.last() as nat, 2)
    }
}

/// One line of a dump: the address, the bytes in hexadecimal padded to the
/// width of a full line, and the bytes as characters.
pub open spec fn dump_line(addr: nat, chunk: Seq<u8>) -> Seq<char> {
    hex_text(addr, 4) + " "@ + hex_bytes(chunk) + Seq::new(
        (3 * (DUMP_CHUNK_SIZE - chunk.len())) as nat,
        |i: int| ' ',
    ) + "  "@ + chunk.map_values(|b: u8| dump_char(b)) + "\n"@
}

/// The lines of a dump of `bytes` from `addr` on, sixteen bytes a line.
pub open spec fn dump_lines(addr: nat, bytes: Seq<u8>) -> Seq<char>
    decreases bytes.len(),
{
    if bytes.len() == 0 {
        Seq::empty()
    } else if bytes.len() <= DUMP_CHUNK_SIZE {
        dump_line(addr, bytes)
    } else {
        dump_line(addr, bytes.take(DUMP_CHUNK_SIZE as int)) + dump_lines(
            addr + 16,
            bytes.skip(DUMP_CHUNK_SIZE as int),
        )
    }
}

/// A dump of memory: the range as `$START:$END`, then the lines.
pub open spec fn snapshot_text(start: u16, end: u16, bytes: Seq<u8>) -> Seq<char> {
    "$"@ + hex_text(start as nat, 4) + ":$"@ + hex_text(end as nat, 4) + "\n"@ + dump_lines(
        start as nat,
        bytes,
    )
}

fn dump_char_exec(b: u8) -> (r: char)
    ensures
        r == dump_char(b),
{
    if 32 <= b && b <= 126 {
        b as char
    } else {
        '.'
    }
}

/// Appends the dump line of `bytes[lo..hi]` at `addr`.
fn push_dump_line(s: &mut String, addr: u64, bytes: &Vec<u8>, lo: usize, hi: usize)
    requires
        lo <= hi <= bytes@.len(),
        hi - lo <= DUMP_CHUNK_SIZE,
    ensures
        final(s)@ == old(s)@ + dump_line(addr as nat, bytes@.subrange(lo as int, hi as int)),
{
    let ghost chunk = bytes@.subrange(lo as int, hi as int);
    push_hex(s, addr, 4);
    s.append(" ");
    let ghost head = s@;
    let mut chars = String::new();
    let mut j = lo;
    while j < hi
        invariant
            lo <= j <= hi <= bytes@.len(),
            chunk == bytes@.subrange(lo as int, hi as int),
            s@ == head + hex_bytes(bytes@.subrange(lo as int, j as int)),
            chars@ == bytes@.subrange(lo as int, j as int).map_values(|b: u8| dump_char(b)),
        decreases hi - j,
    {
        let b = bytes[j];
        s.append(" ");
        push_hex(s, b as u64, 2);
        push_char(&mut chars, dump_char_exec(b));
        assert(bytes@.subrange(lo as int, j + 1).drop_last() =~= bytes@.subrange(lo as int, j as int));
        assert(s@ =~= head + hex_bytes(bytes@.subrange(lo as int, j + 1)));
        assert(chars@ =~= bytes@.subrange(lo as int, j + 1).map_values(|b: u8| dump_char(b)));
        j += 1;
    }
    let pad = 3 * (DUMP_CHUNK_SIZE - (hi - lo));
    let ghost mid = s@;
    let mut k: usize = 0;
    while k < pad
        invariant
            k <= pad,
            s@ == mid + Seq::new(k as nat, |i: int| ' '),
        decreases pad - k,
    {
        push_char(s, ' ');
        assert(s@ =~= mid + Seq::new((k + 1) as nat, |i: int| ' '));
        k += 1;
    }
    s.append("  ");
    s.append(chars.as_str());
    s.append("\n");
    assert(s@ =~= old(s)@ + dump_line(addr as nat, chunk));
}

/// A dump of the memory from `start` to `end`, whose bytes are `bytes` (see
/// `snapshot_text`). The addresses are counted in 64 bits.
pub fn format_snapshot(start: u16, end: u16, bytes: &Vec<u8>) -> (r: String)
    requires
        start + bytes@.len() <= u64::MAX,
    ensures
        r@ == snapshot_text(start, end, bytes@),
{
    let mut s = String::new();
    s.append("$");
    push_hex(&mut s, start as u64, 4);
    s.append(":$");
    push_hex(&mut s, end as u64, 4);
    s.append("\n");
    let ghost target = snapshot_text(start, end, bytes@);
    let n = bytes.len();
    let mut i: usize = 0;
    let mut addr: u64 = start as u64;
    assert(bytes@.skip(0) =~= bytes@);
    while i < n
        invariant
            n == bytes@.len(),
            start + n <= u64::MAX,
            i <= n,
            addr == start + i,
            s@ + dump_lines(addr as nat, bytes@.skip(i as int)) == target,
        decreases n - i,
    {
        let ghost rest = bytes@.skip(i as int);
        let hi = if n - i <= DUMP_CHUNK_SIZE {
            n
        } else {
            i + DUMP_CHUNK_SIZE
        };
        push_dump_line(&mut s, addr, bytes, i, hi);
        proof {
            if rest.len() <= DUMP_CHUNK_SIZE {
                assert(bytes@.subrange(i as int, hi as int) =~= rest);
                assert(bytes@.skip(hi as int) =~= Seq::<u8>::empty());
            } else {
                assert(bytes@.subrange(i as int, hi as int) =~= rest.take(DUMP_CHUNK_SIZE as int));
                assert(bytes@.skip(hi as int) =~= rest.skip(DUMP_CHUNK_SIZE as int));
            }
        }
        addr = addr + (hi - i) as u64;
        i = hi;
    }
    assert(bytes@.skip(i as int) =~= Seq::<u8>::empty());
    s
}

} // verus!
