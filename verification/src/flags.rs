//! The readiness mask of an I/O source.

use vstd::prelude::*;

verus! {

/// The descriptor can be read.
pub const IO_IN: u32 = 1;

/// The descriptor can be written.
pub const IO_OUT: u32 = 4;

/// The descriptor is in error.
pub const IO_ERR: u32 = 8;

/// The other end hung up.
pub const IO_HUP: u32 = 16;

/// Every bit that stands for a condition.
pub const IO_ALL: u32 = 29;

/// A set of readiness conditions, held as the bits the native loop reads.
#[derive(Clone, Copy, Debug, PartialEq, Eq, Structural)]
pub struct IoFlags {
    bits: u32,
}

impl IoFlags {
    /// The mask as the native loop takes it.
    pub closed spec fn view(&self) -> u32 {
        self.bits
    }

    /// The mask of no condition.
    pub fn empty() -> (flags: IoFlags)
        ensures
            flags@ == 0,
    {
        IoFlags { bits: 0 }
    }

    /// Ready for input.
    pub fn input() -> (flags: IoFlags)
        ensures
            flags@ == IO_IN,
    {
        IoFlags { bits: IO_IN }
    }

    /// Ready for output.
    pub fn output() -> (flags: IoFlags)
        ensures
            flags@ == IO_OUT,
    {
        IoFlags { bits: IO_OUT }
    }

    /// Ready for input or for output.
    pub fn any() -> (flags: IoFlags)
        ensures
            flags@ == IO_IN | IO_OUT,
            flags@ == 5,
    {
        assert(1u32 | 4u32 == 5u32) by (bit_vector);
        IoFlags { bits: IO_IN | IO_OUT }
    }

    /// The mask with exactly the given bits; `None` exactly when a bit is set
    /// that stands for no condition.
    pub fn from_bits(bits: u32) -> (flags: Option<IoFlags>)
        ensures
            flags is Some <==> bits & !IO_ALL == 0,
            flags matches Some(f) ==> f@ == bits,
    {
        if bits & !IO_ALL == 0 {
            Some(IoFlags { bits })
        } else {
            None
        }
    }

    /// The bits of the mask, as they are handed to the native loop.
    pub fn bits(&self) -> (bits: u32)
        ensures
            bits == self@,
    {
        self.bits
    }

    /// The conditions of either mask.
    pub fn union(self, other: IoFlags) -> (flags: IoFlags)
        ensures
            flags@ == self@ | other@,
    {
        IoFlags { bits: self.bits | other.bits }
    }

    /// Whether every condition of `other` is in this mask.
    pub fn contains(&self, other: IoFlags) -> (yes: bool)
        ensures
            yes == (self@ & other@ == other@),
    {
        self.bits & other.bits == other.bits
    }
}

} // verus!
