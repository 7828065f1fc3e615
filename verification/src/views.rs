//! Small helpers for stating contracts over entity views.

use vstd::prelude::*;
use crate::error::Error;

verus! {

/// The view of an optional string: the characters, when one is present.
pub open spec fn view_opt_string(o: Option<String>) -> Option<Seq<char>> {
    match o {
        Some(s) => Some(s@),
        None => None,
    }
}

/// A constructor result, with the entity replaced by its view: the shape in
/// which every constructor's `ensures` pins its result down.
pub open spec fn view_result<T: View>(r: Result<T, Error>) -> Result<T::V, Error> {
    match r {
        Ok(t) => Ok(t@),
        Err(e) => Err(e),
    }
}

} // verus!
