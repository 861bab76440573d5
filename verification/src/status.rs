//! The status-code wrapper: a single host integer outcome code with three
//! recognized sentinel values and equality decided purely on the wrapped
//! integer.

use vstd::prelude::*;

verus! {

/// The host's code for a successful operation.
pub const NGX_OK: i64 = 0;

/// The host's code for a failed operation.
pub const NGX_ERROR: i64 = -1;

/// The host's code for an operation that is not finished and must be
/// invoked again.
pub const NGX_AGAIN: i64 = -2;

/// An outcome code reported by a host operation.  The host consumes only
/// the wrapped integer; equality and ordering are those of the integer.
#[derive(Clone, Copy, Debug, PartialEq, Eq, Structural, PartialOrd, Ord)]
pub struct Status(pub i64);

impl Status {
    /// Whether this outcome is the success sentinel.
    pub open spec fn is_ok_spec(self) -> bool {
        self.0 == NGX_OK
    }

    /// True exactly when the wrapped code equals the success sentinel.
    pub fn is_ok(&self) -> (r: bool)
        ensures
            r == self.is_ok_spec(),
    {
        self.0 == NGX_OK
    }

    /// The host's native integer representation of this outcome.
    pub fn into_raw(self) -> (r: i64)
        ensures
            r == self.0,
    {
        self.0
    }
}

/// Law: among the three recognized sentinel codes, only the success
/// sentinel satisfies the acceptance test that `is_ok` implements.
pub proof fn lemma_is_ok_only_for_ok()
    ensures
        Status(NGX_OK).is_ok_spec(),
        !Status(NGX_ERROR).is_ok_spec(),
        !Status(NGX_AGAIN).is_ok_spec(),
{
}

} // verus!
