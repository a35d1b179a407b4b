//! The failure taxonomy of the toolkit. Every fallible operation returns one
//! of these to its immediate caller; there is no local recovery or retry,
//! and nothing is silently swallowed.

use vstd::prelude::*;

verus! {

#[derive(Debug, Clone, Copy, PartialEq, Eq, Structural)]
pub enum Error {
    /// A decode needed bytes past the end of the stream, or a block header
    /// promised fewer bytes than its own fields require; `offset` is where
    /// the failing read began.
    ReadFailure { offset: usize },
    /// A seek target lay past the end of the stream.
    SeekFailure { offset: usize },
    /// A write-back needed bytes past the end of the stream; `offset` is the
    /// recorded offset the write aimed at.
    WriteFailure { offset: usize },
    /// No section's virtual range contains `rva`, or the matching section
    /// places the address beyond the reachable file range.
    SectionNotFound { rva: u32 },
    /// Arithmetic write-back is not defined for array-typed values.
    UnimplementedArrayArithmetic,
}

} // verus!
