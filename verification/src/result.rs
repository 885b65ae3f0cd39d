//! The result code of a call into the native loop.

use vstd::prelude::*;

verus! {

/// Whether a native result code reports that the call was carried out.
/// Negative codes are errors; zero and above are successes.
pub open spec fn accepted(res: i32) -> bool {
    res >= 0
}

/// What a native call returned, kept as it came.
#[derive(Clone, Copy, Debug, PartialEq, Eq, Structural)]
pub struct SpaResult {
    code: i32,
}

impl SpaResult {
    /// The code that the native call returned.
    pub closed spec fn view(&self) -> i32 {
        self.code
    }

    /// Wraps the code of a native call, unchanged.
    pub fn from_c(res: i32) -> (result: SpaResult)
        ensures
            result@ == res,
    {
        SpaResult { code: res }
    }

    /// The code, unchanged.
    pub fn code(&self) -> (res: i32)
        ensures
            res == self@,
    {
        self.code
    }

    /// Whether the call was carried out.
    pub fn is_ok(&self) -> (ok: bool)
        ensures
            ok == accepted(self@),
    {
        self.code >= 0
    }
}

} // verus!
