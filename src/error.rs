use vstd::prelude::*;

use crate::address::Addr24;

verus! {

/// Failures reported by the codecs and the address helpers.
#[derive(Clone, Copy, PartialEq, Eq, Structural, Debug)]
pub enum Error {
    NoHeader,
    TitleNotASCII,
    ChecksumComplimentMismatch,
    /// Expected size, then actual size.
    ROMSizeMismatch(usize, usize),
    /// Actual length, then expected length.
    DataLengthMismatch(usize, usize),
    InvalidColorIndex(u8),
    InvalidROMAddress(Addr24),
    InvalidDiskAddress(Addr24),
    /// Offending coordinate, then the limit.
    OutOfBounds(usize, usize),
}

} // verus!
