//! Failures that callers can recover from.

use vstd::prelude::*;

verus! {

/// Why a native resource could not be had.
#[derive(Clone, Copy, Debug, PartialEq, Eq, Structural)]
pub enum Error {
    /// The native constructor returned no resource.
    CreationFailed,
}

} // verus!
