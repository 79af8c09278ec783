//! The limit on the request rate of a managed tenant.
use vstd::prelude::*;

verus! {

/// A limit on the request rate: its name and the maximum allowed rate (%).
#[derive(Clone, Default, Debug, PartialEq)]
pub struct LimitValueRequestRate {
    pub name: Name,
    /// The maximum allowed request rate (%).
    pub value: i32,
}

impl LimitValueRequestRate {
    /// The limit named `name` with value `value`.
    pub fn new(name: Name, value: i32) -> (res: LimitValueRequestRate)
        ensures
            res.name == name,
            res.value == value,
    {
        LimitValueRequestRate { name, value }
    }
}

/// The kinds of limit.
#[derive(Clone, Copy, Debug, Eq, PartialEq, Ord, PartialOrd, Hash, Structural)]
pub enum Name {
    Cpu,
    Mem,
    CertificateCount,
    SecretCount,
    TopicCount,
    PartitionCount,
    ConsumerRate,
    ProducerRate,
    RequestRate,
}

impl Default for Name {
    /// The CPU limit.
    fn default() -> (res: Name)
        ensures
            res == Name::Cpu,
    {
        Self::Cpu
    }
}

} // verus!
