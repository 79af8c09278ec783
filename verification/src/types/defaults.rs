//! The values that fields of the REST records take when a body leaves them
//! out.
use vstd::prelude::*;
use vstd::std_specs::convert::TryFromSpec;
use crate::types::enums::ManagedTenantServicesName;
use crate::types::structs::ManagedTenantServices;

verus! {

/// The boolean `V`.
pub fn default_bool<const V: bool>() -> (res: bool)
    ensures
        res == V,
{
    V
}

/// The integer `V`, converted to `T` by its `TryFrom`; the conversion must
/// succeed, and the result is what it gives.
pub fn default_u64<T, const V: u64>() -> (res: T) where
    T: std::convert::TryFrom<u64>,
    <T as std::convert::TryFrom<u64>>::Error: std::fmt::Debug,

    requires
        forall|r: Result<T, <T as std::convert::TryFrom<u64>>::Error>|
            #[trigger] call_ensures(T::try_from, (V,), r) ==> r is Ok,
    ensures
        call_ensures(T::try_from, (V,), Ok::<T, <T as std::convert::TryFrom<u64>>::Error>(res)),
        T::obeys_try_from_spec() ==> res == T::try_from_spec(V)->Ok_0,
{
    let r = T::try_from(V);
    match r {
        Ok(v) => v,
        Err(_) => {
            assert(false);
            vstd::pervasive::unreached()
        },
    }
}

/// The path of a health check: the root.
pub fn health_check_path() -> (res: String)
    ensures
        res@ == "/"@,
{
    String::from_str("/")
}

/// The services of a managed tenant: monitoring enabled, VPN and tracing
/// disabled.
pub open spec fn default_managed_tenant_services() -> Seq<ManagedTenantServices> {
    seq![
        ManagedTenantServices { enabled: true, name: ManagedTenantServicesName::Monitoring },
        ManagedTenantServices { enabled: false, name: ManagedTenantServicesName::Vpn },
        ManagedTenantServices { enabled: false, name: ManagedTenantServicesName::Tracing },
    ]
}

/// The services of a managed tenant: monitoring enabled, VPN and tracing
/// disabled.
pub fn managed_tenant_services() -> (res: Vec<ManagedTenantServices>)
    ensures
        res@ == default_managed_tenant_services(),
{
    let mut v: Vec<ManagedTenantServices> = Vec::new();
    v.push(ManagedTenantServices { enabled: true, name: ManagedTenantServicesName::Monitoring });
    v.push(ManagedTenantServices { enabled: false, name: ManagedTenantServicesName::Vpn });
    v.push(ManagedTenantServices { enabled: false, name: ManagedTenantServicesName::Tracing });
    v
}

/// The path of a metrics endpoint.
pub fn metrics_path() -> (res: String)
    ensures
        res@ == "/metrics"@,
{
    String::from_str("/metrics")
}

} // verus!
