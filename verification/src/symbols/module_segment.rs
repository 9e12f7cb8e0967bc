use crate::symbols::error::MapFileError;
use crate::text::{chars_of, parse_hex, parse_hex_spec, split_whitespace, words};
use vstd::prelude::*;

verus! {

/// One segment of a module in a linker map file, for example
/// `DATA  Offs=000000  Size=00009C  Align=00001  Fill=0000`.
#[derive(Debug, PartialEq, Eq)]
pub struct ModuleSegment {
    pub name: String,
    pub offset: u32,
    pub size: u32,
    pub align: u32,
    pub fill: u16,
}

/// The content of a `ModuleSegment`.
pub struct SegmentView {
    pub name: Seq<char>,
    pub offset: u32,
    pub size: u32,
    pub align: u32,
    pub fill: u16,
}

impl View for ModuleSegment {
    type V = SegmentView;

    open spec fn view(&self) -> SegmentView {
        SegmentView {
            name: self.name@,
            offset: self.offset,
            size: self.size,
            align: self.align,
            fill: self.fill,
        }
    }
}

/// Whether `s` begins with `prefix`.
pub open spec fn has_prefix(s: Seq<char>, prefix: Seq<char>) -> bool {
    prefix.len() <= s.len() && s.take(prefix.len() as int) == prefix
}

/// The hexadecimal number that follows `prefix` in `field`, when `field`
/// starts with `prefix`: `Err(InvalidSegment)` without the prefix,
/// `Err(InvalidNumber)` when the rest is no number of at most `max`.
pub open spec fn prefixed_hex(field: Seq<char>, prefix: Seq<char>, max: nat) -> Result<
    nat,
    MapFileError,
> {
    if !has_prefix(field, prefix) {
        Err(MapFileError::InvalidSegment)
    } else {
        match parse_hex_spec(field.skip(prefix.len() as int), max) {
            Some(n) => Ok(n),
            None => Err(MapFileError::InvalidNumber),
        }
    }
}

/// How a segment line reads: five whitespace-separated fields, the name and
/// then `Offs=`, `Size=`, `Align=` and `Fill=` each followed by a
/// hexadecimal number, checked in that order.
pub open spec fn segment_spec(s: Seq<char>) -> Result<SegmentView, MapFileError> {
    let p = words(s);
    if p.len() != 5 {
        Err(MapFileError::InvalidSegment)
    } else {
        match prefixed_hex(p[1], "Offs="@, u32::MAX as nat) {
            Err(e) => Err(e),
            Ok(offset) => match prefixed_hex(p[2], "Size="@, u32::MAX as nat) {
                Err(e) => Err(e),
                Ok(size) => match prefixed_hex(p[3], "Align="@, u32::MAX as nat) {
                    Err(e) => Err(e),
                    Ok(align) => match prefixed_hex(p[4], "Fill="@, u16::MAX as nat) {
                        Err(e) => Err(e),
                        Ok(fill) => Ok(
                            SegmentView {
                                name: p[0],
                                offset: offset as u32,
                                size: size as u32,
                                align: align as u32,
                                fill: fill as u16,
                            },
                        ),
                    },
                },
            },
        }
    }
}

/// Reads the number after `prefix` in `field`.
fn read_prefixed_hex(field: &String, prefix: &str, max: u64) -> (r: Result<u64, MapFileError>)
    requires
        max <= u32::MAX,
    ensures
        r matches Ok(n) ==> prefixed_hex(field@, prefix@, max as nat) == Ok::<nat, MapFileError>(
            n as nat,
        ),
        r matches Err(e) ==> prefixed_hex(field@, prefix@, max as nat) == Err::<nat, MapFileError>(
            e,
        ),
{
    let v = chars_of(field.as_str());
    let p = chars_of(prefix);
    if p.len() > v.len() {
        return Err(MapFileError::InvalidSegment);
    }
    let mut i: usize = 0;
    while i < p.len()
        invariant
            v@ == field@,
            p@ == prefix@,
            p@.len() <= v@.len(),
            i <= p@.len(),
            forall|j: int| 0 <= j < i ==> v@[j] == p@[j],
        decreases p@.len() - i,
    {
        if v[i] != p[i] {
            assert(v@.take(p@.len() as int)[i as int] != p@[i as int]);
            assert(v@.take(p@.len() as int) != p@);
            return Err(MapFileError::InvalidSegment);
        }
        i += 1;
    }
    assert(v@.take(p@.len() as int) =~= p@);
    assert(v@.subrange(p@.len() as int, v@.len() as int) =~= v@.skip(p@.len() as int));
    match parse_hex(&v, p.len(), v.len(), max) {
        Some(n) => Ok(n),
        None => Err(MapFileError::InvalidNumber),
    }
}

impl ModuleSegment {
    /// Parses a segment line.
    pub fn from_str(s: &str) -> (r: Result<ModuleSegment, MapFileError>)
        ensures
            r matches Ok(seg) ==> segment_spec(s@) == Ok::<SegmentView, MapFileError>(seg@),
            r matches Err(e) ==> segment_spec(s@) == Err::<SegmentView, MapFileError>(e),
    {
        let v = chars_of(s);
        let parts = split_whitespace(&v);
        if parts.len() != 5 {
            return Err(MapFileError::InvalidSegment);
        }
        let offset = match read_prefixed_hex(&parts[1], "Offs=", 0xffff_ffff) {
            Ok(n) => n,
            Err(e) => return Err(e),
        };
        let size = match read_prefixed_hex(&parts[2], "Size=", 0xffff_ffff) {
            Ok(n) => n,
            Err(e) => return Err(e),
        };
        let align = match read_prefixed_hex(&parts[3], "Align=", 0xffff_ffff) {
            Ok(n) => n,
            Err(e) => return Err(e),
        };
        let fill = match read_prefixed_hex(&parts[4], "Fill=", 0xffff) {
            Ok(n) => n,
            Err(e) => return Err(e),
        };
        let name = parts[0].clone();
        Ok(
            ModuleSegment {
                name,
                offset: offset as u32,
                size: size as u32,
                align: align as u32,
                fill: fill as u16,
            },
        )
    }
}

} // verus!
