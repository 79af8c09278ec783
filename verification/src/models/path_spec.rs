//! A path prefix routed to a service.
use vstd::prelude::*;

verus! {

/// A path prefix that is matched for routing to a service.
#[derive(Clone, Default, Debug, PartialEq)]
pub struct PathSpec {
    /// The path prefix (starting with `/`, ending without `/`).
    pub prefix: String,
}

impl PathSpec {
    /// The path specification of `prefix`.
    pub fn new(prefix: String) -> (res: PathSpec)
        ensures
            res.prefix == prefix,
    {
        PathSpec { prefix }
    }
}

} // verus!
