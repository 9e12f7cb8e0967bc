use vstd::prelude::*;

verus! {

/// Why a part of a linker map file could not be read.
#[derive(Clone, Copy, Debug, PartialEq, Eq, Structural)]
pub enum MapFileError {
    /// The export list does not start with its heading, or a line of it does
    /// not hold one or two entries.
    InvalidExportList,
    /// The flags of an export are not `[R](L|E)(Z|A|F|L)`.
    InvalidExportFlags,
    /// A number is not hexadecimal or does not fit its type.
    InvalidNumber,
    /// The module list does not start with its heading.
    InvalidModuleList,
    /// There is no module heading (`name:`) where one is expected.
    InvalidModule,
    /// A segment line does not have the expected five fields.
    InvalidSegment,
}

} // verus!
