//! The connection to the server.

use vstd::prelude::*;

verus! {

/// A connection, known by the address of its native object.
#[derive(Debug, PartialEq, Eq, Structural)]
pub struct Core {
    ptr: usize,
}

impl Core {
    /// The address of the native connection.
    pub closed spec fn view(&self) -> usize {
        self.ptr
    }

    /// The connection at address `ptr`.
    pub fn from_ptr(ptr: usize) -> (core: Core)
        ensures
            core@ == ptr,
    {
        Core { ptr }
    }

    /// The address of the native connection.
    pub fn as_ptr(&self) -> (ptr: usize)
        ensures
            ptr == self@,
    {
        self.ptr
    }
}

} // verus!
