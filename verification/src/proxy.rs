//! The local stand-in for a remote object.

use vstd::prelude::*;

verus! {

/// A proxy, known by the address of its native object.
#[derive(Debug, PartialEq, Eq, Structural)]
pub struct Proxy {
    ptr: usize,
}

impl Proxy {
    /// The address of the native proxy.
    pub closed spec fn view(&self) -> usize {
        self.ptr
    }

    /// The proxy at address `ptr`.
    pub fn from_ptr(ptr: usize) -> (proxy: Proxy)
        ensures
            proxy@ == ptr,
    {
        Proxy { ptr }
    }

    /// The address of the native proxy.
    pub fn as_ptr(&self) -> (ptr: usize)
        ensures
            ptr == self@,
    {
        self.ptr
    }
}

} // verus!
