//! A volume of a given size.
use vstd::prelude::*;

verus! {

/// A volume and its size in GiB.
#[derive(Clone, Default, Debug, PartialEq)]
pub struct Volume {
    pub size_gi_b: i32,
}

impl Volume {
    /// A volume of `size_gi_b` GiB.
    pub fn new(size_gi_b: i32) -> (res: Volume)
        ensures
            res.size_gi_b == size_gi_b,
    {
        Volume { size_gi_b }
    }
}

} // verus!
