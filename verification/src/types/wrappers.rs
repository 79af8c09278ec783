//! Records that wrap a single value of another type.
use vstd::prelude::*;
use crate::types::structs::AllocationStatus;

verus! {

/// The status of an allocation, as a response body of its own.
#[derive(Clone, Debug)]
pub struct AllocationStatus1(pub AllocationStatus);

impl std::ops::Deref for AllocationStatus1 {
    type Target = AllocationStatus;

    fn deref(&self) -> (res: &AllocationStatus)
        ensures
            *res == self.0,
    {
        &self.0
    }
}

impl From<AllocationStatus1> for AllocationStatus {
    fn from(value: AllocationStatus1) -> (res: Self) {
        value.0
    }
}

impl vstd::std_specs::convert::FromSpecImpl<AllocationStatus1> for AllocationStatus {
    open spec fn obeys_from_spec() -> bool {
        true
    }

    open spec fn from_spec(v: AllocationStatus1) -> AllocationStatus {
        v.0
    }
}

impl From<AllocationStatus> for AllocationStatus1 {
    fn from(value: AllocationStatus) -> (res: Self) {
        Self(value)
    }
}

impl vstd::std_specs::convert::FromSpecImpl<AllocationStatus> for AllocationStatus1 {
    open spec fn obeys_from_spec() -> bool {
        true
    }

    open spec fn from_spec(v: AllocationStatus) -> AllocationStatus1 {
        AllocationStatus1(v)
    }
}

/// The names of the children of a resource.
#[derive(Clone, Debug)]
pub struct ChildList(pub Vec<String>);

impl std::ops::Deref for ChildList {
    type Target = Vec<String>;

    fn deref(&self) -> (res: &Vec<String>)
        ensures
            *res == self.0,
    {
        &self.0
    }
}

impl From<ChildList> for Vec<String> {
    fn from(value: ChildList) -> (res: Self) {
        value.0
    }
}

impl vstd::std_specs::convert::FromSpecImpl<ChildList> for Vec<String> {
    open spec fn obeys_from_spec() -> bool {
        true
    }

    open spec fn from_spec(v: ChildList) -> Vec<String> {
        v.0
    }
}

impl From<Vec<String>> for ChildList {
    fn from(value: Vec<String>) -> (res: Self) {
        Self(value)
    }
}

impl vstd::std_specs::convert::FromSpecImpl<Vec<String>> for ChildList {
    open spec fn obeys_from_spec() -> bool {
        true
    }

    open spec fn from_spec(v: Vec<String>) -> ChildList {
        ChildList(v)
    }
}

} // verus!
