use vstd::prelude::*;

verus! {

/// The 16-bit word whose high byte is `hi` and whose low byte is `lo`.
pub open spec fn word_of(hi: u8, lo: u8) -> u16 {
    (hi as int * 256 + lo as int) as u16
}

/// The high byte of a 16-bit word.
pub open spec fn hi_byte(value: u16) -> u8 {
    (value as int / 256) as u8
}

/// The low byte of a 16-bit word.
pub open spec fn lo_byte(value: u16) -> u8 {
    (value as int % 256) as u8
}

/// `x` reduced modulo 256.
pub open spec fn wrap8(x: int) -> u8 {
    (x % 256) as u8
}

/// `x` reduced modulo 65536.
pub open spec fn wrap16(x: int) -> u16 {
    (x % 65536) as u16
}

/// True when `addr` is the last byte of its 256-byte page, so that the byte
/// after it lies on the next page.
pub fn crosses_page_boundary(addr: u16) -> (r: bool)
    ensures
        r == (addr as int % 256 == 255),
{
    let r = (addr & 0x00ff) == 0x00ff;
    assert((addr & 0x00ff) == addr % 256) by (bit_vector);
    r
}

/// Joins a high and a low byte into a word.
pub fn make_word(hi: u8, lo: u8) -> (r: u16)
    ensures
        r == word_of(hi, lo),
        r as int == hi as int * 256 + lo as int,
{
    let h = (hi as u16) << 8;
    assert(h == hi as u16 * 256) by (bit_vector)
        requires
            h == (hi as u16) << 8,
    ;
    h + lo as u16
}

/// Splits a word into its high and low bytes, in that order.
pub fn split_word(value: u16) -> (r: (u8, u8))
    ensures
        r.0 == hi_byte(value),
        r.1 == lo_byte(value),
        r.0 as int * 256 + r.1 as int == value as int,
{
    let hi = (value >> 8) as u8;
    let lo = value as u8;
    assert((value >> 8) as u8 == (value / 256) as u8) by (bit_vector);
    assert(value as u8 == (value % 256) as u8) by (bit_vector);
    (hi, lo)
}

/// Joining the two halves of a split word gives the word back.
pub proof fn lemma_make_split(value: u16)
    ensures
        word_of(hi_byte(value), lo_byte(value)) == value,
{
}

/// Splitting a word made of two bytes gives the two bytes back.
pub proof fn lemma_split_make(hi: u8, lo: u8)
    ensures
        hi_byte(word_of(hi, lo)) == hi,
        lo_byte(word_of(hi, lo)) == lo,
{
}

} // verus!
