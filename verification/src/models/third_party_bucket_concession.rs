//! Access to a bucket owned by a third party.
use vstd::prelude::*;

verus! {

/// A bucket owned by a third party, the access granted to it, and the
/// secrets that hold its credentials.
#[derive(Clone, Default, Debug, PartialEq)]
pub struct ThirdPartyBucketConcession {
    /// Your name for this bucket owned by a third party.
    pub name: String,
    pub readable: bool,
    pub writable: bool,
    pub credentialidentifierref: String,
    pub credentialsecretref: String,
    pub shareidentifier: String,
}

impl ThirdPartyBucketConcession {
    /// The concession made of the given parts.
    pub fn new(
        name: String,
        readable: bool,
        writable: bool,
        credentialidentifierref: String,
        credentialsecretref: String,
        shareidentifier: String,
    ) -> (res: ThirdPartyBucketConcession)
        ensures
            res.name == name,
            res.readable == readable,
            res.writable == writable,
            res.credentialidentifierref == credentialidentifierref,
            res.credentialsecretref == credentialsecretref,
            res.shareidentifier == shareidentifier,
    {
        ThirdPartyBucketConcession {
            name,
            readable,
            writable,
            credentialidentifierref,
            credentialsecretref,
            shareidentifier,
        }
    }
}

} // verus!
