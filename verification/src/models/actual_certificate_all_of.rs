//! What a provisioned certificate adds to the certificate it was asked for.
use vstd::prelude::*;

verus! {

/// The details of a certificate as it is provisioned: serial number,
/// validity period, distinguished name and DNS names.
#[derive(Clone, Default, Debug, PartialEq)]
pub struct ActualCertificateAllOf {
    pub serial_number: String,
    pub not_before: String,
    pub not_after: String,
    pub distinguished_name: String,
    pub dns_names: Vec<String>,
}

impl ActualCertificateAllOf {
    /// The details made of the given parts.
    pub fn new(
        serial_number: String,
        not_before: String,
        not_after: String,
        distinguished_name: String,
        dns_names: Vec<String>,
    ) -> (res: ActualCertificateAllOf)
        ensures
            res.serial_number == serial_number,
            res.not_before == not_before,
            res.not_after == not_after,
            res.distinguished_name == distinguished_name,
            res.dns_names == dns_names,
    {
        ActualCertificateAllOf { serial_number, not_before, not_after, distinguished_name, dns_names }
    }
}

} // verus!
