//! A certificate that is wanted on the platform.
use vstd::prelude::*;

verus! {

/// Information on a certificate which is wanted on the platform but may not
/// yet be provisioned.
#[derive(Clone, Default, Debug, PartialEq)]
pub struct Certificate {
    pub key_secret: String,
    pub cert_chain_secret: String,
    pub passphrase_secret: Option<String>,
}

impl Certificate {
    /// A certificate with its key and certificate chain secrets and no
    /// passphrase secret.
    pub fn new(key_secret: String, cert_chain_secret: String) -> (res: Certificate)
        ensures
            res.key_secret == key_secret,
            res.cert_chain_secret == cert_chain_secret,
            res.passphrase_secret is None,
    {
        Certificate { key_secret, cert_chain_secret, passphrase_secret: None }
    }
}

} // verus!
