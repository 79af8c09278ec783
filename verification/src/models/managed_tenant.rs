//! A tenant managed by another tenant.
use vstd::prelude::*;
use crate::types::ManagedTenantServices;

verus! {

/// A tenant, the tenant acting as its manager, and the services enabled for
/// it.
#[derive(Clone, Default, Debug)]
pub struct ManagedTenant {
    /// Name of the tenant; must be identical to the tenant name used in the path.
    pub name: String,
    /// Name of the tenant acting as manager for this tenant; must be identical
    /// to the `manager` parameter in the path.
    pub manager: String,
    /// The services enabled for this tenant.
    pub services: Option<Vec<ManagedTenantServices>>,
}

impl ManagedTenant {
    /// The tenant `name` managed by `manager`, with no services listed.
    pub fn new(name: String, manager: String) -> (res: ManagedTenant)
        ensures
            res.name == name,
            res.manager == manager,
            res.services is None,
    {
        ManagedTenant { name, manager, services: None }
    }
}

} // verus!
