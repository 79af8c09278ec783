//! The networks available on a platform.
use vstd::prelude::*;

verus! {

/// Available networks on this platform.
#[derive(Clone, Default, Debug, PartialEq)]
pub struct Zone {
    pub network: Network,
}

impl Zone {
    /// Available networks on this platform.
    pub fn new(network: Network) -> (res: Zone)
        ensures
            res.network == network,
    {
        Zone { network }
    }
}

/// A network of the platform.
#[derive(Clone, Copy, Debug, Eq, PartialEq, Ord, PartialOrd, Hash, Structural)]
pub enum Network {
    Internal,
    Public,
}

impl Default for Network {
    /// The internal network.
    fn default() -> (res: Network)
        ensures
            res == Network::Internal,
    {
        Self::Internal
    }
}

} // verus!
