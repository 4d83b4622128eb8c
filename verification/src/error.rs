//! The failure taxonomy of the link protocol.

use vstd::prelude::*;

verus! {

/// One enumerated kind per distinguishable failure mode of opening the shared
/// memory segment. On the Windows family locating the named mapping and
/// attaching it fail separately (`OpenFileMappingW`, `MapViewOfFile`); on the
/// unix family the analogous pair is `ShmOpen` and `MMap`. `NoMem` means the
/// shared memory was never initialized, and `ManuallyClosed` records that a
/// shared link was deactivated on purpose rather than by an OS failure.
#[derive(Debug, Clone, Copy, PartialEq, Eq, Structural)]
#[non_exhaustive]
pub enum ErrorCode {
    Success,
    OpenFileMappingW,
    MapViewOfFile,
    ShmOpen,
    MMap,
    NoMem,
    Unknown,
    ManuallyClosed,
}

impl ErrorCode {
    /// The protocol's numeric value of this error kind, as handed across the
    /// native-bridge boundary.
    pub fn code(&self) -> (r: i32)
        ensures
            r == self.code_spec(),
    {
        match self {
            ErrorCode::Success => 0,
            ErrorCode::OpenFileMappingW => 1,
            ErrorCode::MapViewOfFile => 2,
            ErrorCode::ShmOpen => 3,
            ErrorCode::MMap => 4,
            ErrorCode::NoMem => 5,
            ErrorCode::Unknown => 6,
            ErrorCode::ManuallyClosed => 7,
        }
    }

    pub open spec fn code_spec(self) -> i32 {
        match self {
            ErrorCode::Success => 0,
            ErrorCode::OpenFileMappingW => 1,
            ErrorCode::MapViewOfFile => 2,
            ErrorCode::ShmOpen => 3,
            ErrorCode::MMap => 4,
            ErrorCode::NoMem => 5,
            ErrorCode::Unknown => 6,
            ErrorCode::ManuallyClosed => 7,
        }
    }

    /// A human-readable description of the error kind.
    pub fn message(&self) -> (r: &'static str)
        ensures
            r@ == self.message_spec(),
    {
        match self {
            ErrorCode::Success => "no error",
            ErrorCode::OpenFileMappingW => "OpenFileMappingW failed to return a handle",
            ErrorCode::MapViewOfFile => "MapViewOfFile failed to return a structure",
            ErrorCode::ShmOpen => "shm_open returned a negative integer",
            ErrorCode::MMap => "mmap failed to return a structure",
            ErrorCode::NoMem => "shared memory was not initialized",
            ErrorCode::Unknown => "unknown Error",
            ErrorCode::ManuallyClosed => "Manually closed",
        }
    }

    pub open spec fn message_spec(self) -> Seq<char> {
        match self {
            ErrorCode::Success => "no error"@,
            ErrorCode::OpenFileMappingW => "OpenFileMappingW failed to return a handle"@,
            ErrorCode::MapViewOfFile => "MapViewOfFile failed to return a structure"@,
            ErrorCode::ShmOpen => "shm_open returned a negative integer"@,
            ErrorCode::MMap => "mmap failed to return a structure"@,
            ErrorCode::NoMem => "shared memory was not initialized"@,
            ErrorCode::Unknown => "unknown Error"@,
            ErrorCode::ManuallyClosed => "Manually closed"@,
        }
    }
}

} // verus!
