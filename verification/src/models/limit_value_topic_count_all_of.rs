//! The value of a limit on the number of topics.
use vstd::prelude::*;

verus! {

/// The number of topics available for the managed tenant.
#[derive(Clone, Default, Debug, PartialEq)]
pub struct LimitValueTopicCountAllOf {
    /// The number of topics available for the managed tenant.
    pub value: i32,
}

impl LimitValueTopicCountAllOf {
    /// The limit of `value` topics.
    pub fn new(value: i32) -> (res: LimitValueTopicCountAllOf)
        ensures
            res.value == value,
    {
        LimitValueTopicCountAllOf { value }
    }
}

} // verus!
