//! Durations in whole seconds.

use vstd::prelude::*;

verus! {

/// A duration in seconds.
#[derive(Debug, Clone, Copy, PartialEq, Eq, Structural)]
pub struct Seconds(pub i64);

impl Seconds {
    pub fn one_hour() -> (r: Seconds)
        ensures
            r.0 == 3600,
    {
        Seconds(3600)
    }
}

} // verus!
