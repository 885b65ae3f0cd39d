//! The context that a loop runs for.

use crate::core_::Core;
use crate::error::Error;
use crate::loop_::IsLoop;
use vstd::prelude::*;

verus! {

/// A native context together with the loop it was made for.
#[derive(Debug)]
pub struct Context<T: IsLoop + Clone> {
    ptr: usize,
    loop_: T,
}

impl<T: IsLoop + Clone> Context<T> {
    /// The address of the native context.
    pub closed spec fn ptr(&self) -> usize {
        self.ptr
    }

    /// The loop that the context keeps.
    pub closed spec fn kept_loop(&self) -> T {
        self.loop_
    }

    /// Makes a context from what the native constructor returned for
    /// `loop_`: it fails exactly when that is the null address. The context
    /// keeps a clone of the loop.
    pub fn new(loop_: &T, context: usize) -> (made: Result<Self, Error>)
        ensures
            match made {
                Ok(c) => context != 0 && c.ptr() == context && cloned(*loop_, c.kept_loop()),
                Err(e) => context == 0 && e == Error::CreationFailed,
            },
    {
        if context == 0 {
            Err(Error::CreationFailed)
        } else {
            Ok(Context { ptr: context, loop_: loop_.clone() })
        }
    }

    /// The address of the native context.
    pub fn as_ptr(&self) -> (ptr: usize)
        ensures
            ptr == self.ptr(),
    {
        self.ptr
    }

    /// Makes a connection from what connecting the native context returned:
    /// it fails exactly when that is the null address.
    pub fn connect(&self, core: usize) -> (made: Result<Core, Error>)
        ensures
            match made {
                Ok(c) => core != 0 && c@ == core,
                Err(e) => core == 0 && e == Error::CreationFailed,
            },
    {
        if core == 0 {
            Err(Error::CreationFailed)
        } else {
            Ok(Core::from_ptr(core))
        }
    }
}

} // verus!
