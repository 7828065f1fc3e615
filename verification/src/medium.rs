//! Participating media.

use vstd::prelude::*;
use crate::error::Error;
use crate::params::ParamList;

verus! {

/// A participating medium.
///
/// Medium initialization is a declared gap: no field is parsed yet, and
/// construction always succeeds with this no-field placeholder.
#[derive(Clone, Copy, Debug, PartialEq, Eq, Structural)]
pub struct Medium {}

impl Medium {
    /// Constructs a medium. The parameter source is accepted and
    /// intentionally ignored until medium parameters are built.
    pub fn new(_params: ParamList) -> (r: Result<Medium, Error>)
        ensures
            r == Ok::<Medium, Error>(Medium {}),
    {
        Ok(Medium {})
    }
}

impl Default for Medium {
    /// The placeholder medium.
    fn default() -> (r: Medium)
        ensures
            r == (Medium {}),
    {
        Medium {}
    }
}

} // verus!
