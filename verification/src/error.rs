use vstd::prelude::*;

verus! {

/// The status kinds an emulation engine reports, one variant per kind.
///
/// Register access passes every kind through untouched. The library itself
/// produces only [`EngineError::Exception`], when a stack pointer adjustment
/// would leave the unsigned 64-bit range.
#[derive(Clone, Copy, Debug, PartialEq, Eq, Structural)]
pub enum EngineError {
    /// No error.
    NoError,
    /// Out of memory.
    NoMem,
    /// Unsupported architecture.
    Arch,
    /// Invalid handle.
    Handle,
    /// Invalid or unsupported mode.
    Mode,
    /// Unsupported version.
    Version,
    /// Read from unmapped memory.
    ReadUnmapped,
    /// Write to unmapped memory.
    WriteUnmapped,
    /// Fetch from unmapped memory.
    FetchUnmapped,
    /// Invalid hook type.
    Hook,
    /// Invalid instruction.
    InsnInvalid,
    /// Invalid memory mapping.
    Mapping,
    /// Write to write-protected memory.
    WriteProt,
    /// Read from read-protected memory.
    ReadProt,
    /// Fetch from non-executable memory.
    FetchProt,
    /// Invalid argument, such as an unknown register index.
    Arg,
    /// Unaligned read.
    ReadUnaligned,
    /// Unaligned write.
    WriteUnaligned,
    /// Unaligned fetch.
    FetchUnaligned,
    /// A hook for this event exists already.
    HookExist,
    /// Insufficient resource.
    Resource,
    /// Unhandled CPU exception.
    Exception,
    /// A provided buffer is too small.
    Overflow,
}

} // verus!
