//! The status of an access to a bucket.
use vstd::prelude::*;
use crate::types::{AllocationStatus, BucketAccess, BucketAccessConfiguration};

verus! {

/// The wanted and the actual configuration of a bucket access, with the
/// status of its allocation.
#[derive(Clone, Debug)]
pub struct BucketAccessStatus {
    pub configuration: Option<Box<BucketAccessConfiguration>>,
    pub actual: Option<Box<BucketAccess>>,
    pub status: Box<AllocationStatus>,
}

impl BucketAccessStatus {
    /// The status of an access known only by the status of its allocation.
    pub fn new(status: AllocationStatus) -> (res: BucketAccessStatus)
        ensures
            res.configuration is None,
            res.actual is None,
            *res.status == status,
    {
        BucketAccessStatus { configuration: None, actual: None, status: Box::new(status) }
    }
}

} // verus!
