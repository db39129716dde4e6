//! The bugcheck that a panic in a kernel-mode driver raises.

use vstd::prelude::*;

verus! {

/// The bugcheck code: the ASCII letters `RUST`.
pub const BUGCHECK_RUST_CODE: u32 = 0x5255_5354;

/// Where a panic came from.
#[derive(Clone, Copy, Debug)]
pub struct PanicLocation {
    /// The address of the name of the source file.
    pub file_address: usize,
    /// The length of that name in bytes.
    pub file_len: usize,
    /// The line in the file.
    pub line: u32,
    /// The column in the line.
    pub column: u32,
}

/// The four parameters of the bugcheck.
pub open spec fn parameters_of(location: Option<PanicLocation>) -> (int, int, int, int) {
    match location {
        Some(l) => (l.file_address as int, l.file_len as int, l.line as int, l.column as int),
        None => (0, 0, 0, 0),
    }
}

/// The four parameters of the bugcheck: the location of the panic for post-mortem analysis,
/// zeros when it is not known.
pub fn bugcheck_parameters(location: Option<PanicLocation>) -> (p: (usize, usize, usize, usize))
    ensures
        match location {
            Some(l) => p.0 == l.file_address && p.1 == l.file_len && p.2 == l.line && p.3
                == l.column,
            None => p == (0usize, 0usize, 0usize, 0usize),
        },
        (p.0 as int, p.1 as int, p.2 as int, p.3 as int) == parameters_of(location),
{
    match location {
        Some(l) => (l.file_address, l.file_len, l.line as usize, l.column as usize),
        None => (0, 0, 0, 0),
    }
}

/// The parameters tell the location of the panic, one part each, and are zero without one.
pub proof fn law_parameters_tell_the_location(l: PanicLocation)
    ensures
        parameters_of(Some(l)).0 == l.file_address,
        parameters_of(Some(l)).1 == l.file_len,
        parameters_of(Some(l)).2 == l.line,
        parameters_of(Some(l)).3 == l.column,
        parameters_of(None) == (0int, 0int, 0int, 0int),
{
}

/// The bugcheck code spells `RUST`.
pub proof fn law_code_spells_rust()
    ensures
        BUGCHECK_RUST_CODE == 'R' as int * 0x100_0000 + 'U' as int * 0x1_0000 + 'S' as int * 0x100
            + 'T' as int,
{
}

} // verus!
