//! Errors raised while loading or charting a shot.

use vstd::prelude::*;

verus! {

/// Every failure the library can report. All of them are deterministic
/// functions of the input data, so none is worth retrying.
#[derive(Clone, Copy, Debug, PartialEq, Eq, Structural)]
pub enum ShotError {
    /// A recorded token is not a valid decimal number for its target type.
    MalformedSample,
    /// A range was requested over an empty series.
    EmptySeries,
    /// A scale was requested over a zero-width domain.
    DegenerateDomain,
}

impl ShotError {
    /// Short description, for hosts that print errors.
    pub fn describe(&self) -> (r: &'static str)
        ensures
            *self is MalformedSample ==> r@ == "malformed sample"@,
            *self is EmptySeries ==> r@ == "empty series"@,
            *self is DegenerateDomain ==> r@ == "degenerate domain"@,
    {
        match self {
            ShotError::MalformedSample => "malformed sample",
            ShotError::EmptySeries => "empty series",
            ShotError::DegenerateDomain => "degenerate domain",
        }
    }
}

} // verus!
