//! The failures that building an object can report.

use vstd::prelude::*;

verus! {

/// Why an operation failed.
#[derive(Debug, Clone, Copy, PartialEq, Eq, Hash, Structural)]
pub enum ErrorKind {
    /// The format has no relocation encodings for the object's architecture.
    UnsupportedArchitecture,
    /// The requested relocation has no encoding in the object's format.
    UnsupportedRelocation,
    /// The relocation fields belong to another format than the object's.
    InvalidRelocationFlags,
    /// The relocation keeps its addend in the section data, in a width that cannot be written.
    UnsupportedAddendSize,
    /// A write into section data would end beyond the data.
    InvalidOffset,
}

/// The error type of the builder.
///
/// For `InvalidOffset`, `offset` is the section offset at which the write
/// was to start, `size` its width in bits and `len` the length of the
/// section data. For every other kind the three are zero.
#[derive(Debug, Clone, Copy, PartialEq, Eq, Hash, Structural)]
pub struct Error {
    pub kind: ErrorKind,
    pub offset: u64,
    pub size: u8,
    pub len: u64,
}

impl Error {
    /// The error of the given kind that carries no location.
    pub open spec fn spec_of_kind(kind: ErrorKind) -> Error {
        Error { kind, offset: 0, size: 0, len: 0 }
    }

    /// Make the error of the given kind that carries no location.
    #[verifier::when_used_as_spec(spec_of_kind)]
    pub fn of_kind(kind: ErrorKind) -> (e: Error)
        ensures
            e == Error::spec_of_kind(kind),
    {
        Error { kind, offset: 0, size: 0, len: 0 }
    }

    /// The error for a write of `size` bits at `offset` into data of length `len`.
    pub open spec fn spec_invalid_offset(offset: u64, size: u8, len: u64) -> Error {
        Error { kind: ErrorKind::InvalidOffset, offset, size, len }
    }

    /// Make the error for a write of `size` bits at `offset` into data of length `len`.
    #[verifier::when_used_as_spec(spec_invalid_offset)]
    pub fn invalid_offset(offset: u64, size: u8, len: u64) -> (e: Error)
        ensures
            e == Error::spec_invalid_offset(offset, size, len),
    {
        Error { kind: ErrorKind::InvalidOffset, offset, size, len }
    }

    /// The errors that say the operation has no meaning for the object's format.
    pub open spec fn spec_is_unsupported(&self) -> bool {
        self.kind != ErrorKind::InvalidOffset
    }

    /// Return true if the operation has no meaning for the object's format.
    #[verifier::when_used_as_spec(spec_is_unsupported)]
    pub fn is_unsupported(&self) -> (r: bool)
        ensures
            r == self.spec_is_unsupported(),
    {
        match self.kind {
            ErrorKind::InvalidOffset => false,
            _ => true,
        }
    }
}

} // verus!
