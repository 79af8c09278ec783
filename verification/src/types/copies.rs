//! Copies of the records that hold collections. A copy holds the same
//! content as the record it is made from; the collections themselves are new
//! values.
use vstd::prelude::*;
use std::collections::HashMap;
use crate::types::structs::{
    AllocationStatus, AppCatalogAppConfiguration, ApplicationSecret, Bucket, BucketAccess,
    BucketAccessConfiguration, BucketAccessStatus, BucketStatus, BucketWatch, BucketWatchStatus,
    DataCatalogAsset, DataCatalogAssetStatus, ManagedTenant, ManagedTenantServices, Notification,
    PathSpec, PortMapping, ThirdPartyBucketConcession, ThirdPartyBucketConcessionConfiguration,
    ThirdPartyBucketConcessionStatus, Topic, TopicStatus, Volume, VolumeStatus,
};
use crate::types::wrappers::{AllocationStatus1, ChildList};

verus! {

/// A copy of a list of strings.
pub fn clone_strings(v: &Vec<String>) -> (res: Vec<String>)
    ensures
        res@ == v@,
{
    let mut out: Vec<String> = Vec::new();
    let mut i: usize = 0;
    while i < v.len()
        invariant
            i <= v.len(),
            out@ == v@.subrange(0, i as int),
        decreases v.len() - i,
    {
        out.push(v[i].clone());
        i = i + 1;
    }
    out
}

fn clone_managed_tenant_services(v: &Vec<ManagedTenantServices>) -> (res: Vec<ManagedTenantServices>)
    ensures
        res@ == v@,
{
    let mut out: Vec<ManagedTenantServices> = Vec::new();
    let mut i: usize = 0;
    while i < v.len()
        invariant
            i <= v.len(),
            out@ == v@.subrange(0, i as int),
        decreases v.len() - i,
    {
        out.push(ManagedTenantServices::from(&v[i]));
        i = i + 1;
    }
    out
}

fn clone_path_specs(v: &Vec<PathSpec>) -> (res: Vec<PathSpec>)
    ensures
        res@ == v@,
{
    let mut out: Vec<PathSpec> = Vec::new();
    let mut i: usize = 0;
    while i < v.len()
        invariant
            i <= v.len(),
            out@ == v@.subrange(0, i as int),
        decreases v.len() - i,
    {
        out.push(PathSpec::from(&v[i]));
        i = i + 1;
    }
    out
}

/// Two lists of string maps hold maps of the same entries, in the same order.
pub open spec fn same_maps(a: Seq<HashMap<String, String>>, b: Seq<HashMap<String, String>>) -> bool {
    &&& a.len() == b.len()
    &&& forall|i: int| 0 <= i < a.len() ==> #[trigger] a[i]@ == b[i]@
}

fn clone_maps(v: &Vec<HashMap<String, String>>) -> (res: Vec<HashMap<String, String>>)
    ensures
        same_maps(res@, v@),
{
    let mut out: Vec<HashMap<String, String>> = Vec::new();
    let mut i: usize = 0;
    while i < v.len()
        invariant
            i <= v.len(),
            out@.len() == i,
            forall|k: int| 0 <= k < i ==> #[trigger] out@[k]@ == v@[k]@,
        decreases v.len() - i,
    {
        out.push(v[i].clone());
        i = i + 1;
    }
    out
}

/// Two lists of notifications hold notifications of the same content, in the
/// same order.
pub open spec fn same_notifications(a: Seq<Notification>, b: Seq<Notification>) -> bool {
    &&& a.len() == b.len()
    &&& forall|i: int| 0 <= i < a.len() ==> #[trigger] a[i].same_content(b[i])
}

fn clone_notifications(v: &Vec<Notification>) -> (res: Vec<Notification>)
    ensures
        same_notifications(res@, v@),
{
    let mut out: Vec<Notification> = Vec::new();
    let mut i: usize = 0;
    while i < v.len()
        invariant
            i <= v.len(),
            out@.len() == i,
            forall|k: int| 0 <= k < i ==> #[trigger] out@[k].same_content(v@[k]),
        decreases v.len() - i,
    {
        out.push(Notification::from(&v[i]));
        i = i + 1;
    }
    out
}

impl Notification {
    /// The two records hold the same content.
    pub open spec fn same_content(self, other: Notification) -> bool {
        &&& self.args@ == other.args@
        &&& self.message == other.message
        &&& self.remove == other.remove
    }
}

impl From<&Notification> for Notification {
    /// A copy of `value`.
    fn from(value: &Notification) -> (res: Self)
        ensures
            res.same_content(*value),
    {
        Notification {
            args: value.args.clone(),
            message: value.message.clone(),
            remove: value.remove,
        }
    }
}

impl vstd::std_specs::convert::FromSpecImpl<&Notification> for Notification {
    /// A copy is a new value of the same content, not claimed identical.
    open spec fn obeys_from_spec() -> bool {
        false
    }

    open spec fn from_spec(v: &Notification) -> Notification {
        *v
    }
}

impl AllocationStatus {
    /// The two records hold the same content.
    pub open spec fn same_content(self, other: AllocationStatus) -> bool {
        &&& self.derived_from == other.derived_from
        &&& same_notifications(self.notifications@, other.notifications@)
        &&& self.provisioned == other.provisioned
    }
}

impl From<&AllocationStatus> for AllocationStatus {
    /// A copy of `value`.
    fn from(value: &AllocationStatus) -> (res: Self)
        ensures
            res.same_content(*value),
    {
        AllocationStatus {
            derived_from: match &value.derived_from {
                Some(s) => Some(s.clone()),
                None => None,
            },
            notifications: clone_notifications(&value.notifications),
            provisioned: value.provisioned,
        }
    }
}

impl vstd::std_specs::convert::FromSpecImpl<&AllocationStatus> for AllocationStatus {
    /// A copy is a new value of the same content, not claimed identical.
    open spec fn obeys_from_spec() -> bool {
        false
    }

    open spec fn from_spec(v: &AllocationStatus) -> AllocationStatus {
        *v
    }
}

impl AppCatalogAppConfiguration {
    /// The two records hold the same content.
    pub open spec fn same_content(self, other: AppCatalogAppConfiguration) -> bool {
        &&& self.configuration@ == other.configuration@
        &&& self.manifest_urn == other.manifest_urn
        &&& self.name == other.name
        &&& self.stopped == other.stopped
    }
}

impl From<&AppCatalogAppConfiguration> for AppCatalogAppConfiguration {
    /// A copy of `value`.
    fn from(value: &AppCatalogAppConfiguration) -> (res: Self)
        ensures
            res.same_content(*value),
    {
        AppCatalogAppConfiguration {
            configuration: value.configuration.clone(),
            manifest_urn: value.manifest_urn.clone(),
            name: value.name.clone(),
            stopped: value.stopped,
        }
    }
}

impl vstd::std_specs::convert::FromSpecImpl<&AppCatalogAppConfiguration> for AppCatalogAppConfiguration {
    /// A copy is a new value of the same content, not claimed identical.
    open spec fn obeys_from_spec() -> bool {
        false
    }

    open spec fn from_spec(v: &AppCatalogAppConfiguration) -> AppCatalogAppConfiguration {
        *v
    }
}

impl ApplicationSecret {
    /// The two records hold the same content.
    pub open spec fn same_content(self, other: ApplicationSecret) -> bool {
        &&& same_maps(self.injections@, other.injections@)
        &&& self.name == other.name
    }
}

impl From<&ApplicationSecret> for ApplicationSecret {
    /// A copy of `value`.
    fn from(value: &ApplicationSecret) -> (res: Self)
        ensures
            res.same_content(*value),
    {
        ApplicationSecret {
            injections: clone_maps(&value.injections),
            name: value.name.clone(),
        }
    }
}

impl vstd::std_specs::convert::FromSpecImpl<&ApplicationSecret> for ApplicationSecret {
    /// A copy is a new value of the same content, not claimed identical.
    open spec fn obeys_from_spec() -> bool {
        false
    }

    open spec fn from_spec(v: &ApplicationSecret) -> ApplicationSecret {
        *v
    }
}

impl ManagedTenant {
    /// The two records hold the same content.
    pub open spec fn same_content(self, other: ManagedTenant) -> bool {
        &&& self.manager == other.manager
        &&& self.name == other.name
        &&& self.services@ == other.services@
    }
}

impl From<&ManagedTenant> for ManagedTenant {
    /// A copy of `value`.
    fn from(value: &ManagedTenant) -> (res: Self)
        ensures
            res.same_content(*value),
    {
        ManagedTenant {
            manager: value.manager.clone(),
            name: value.name.clone(),
            services: clone_managed_tenant_services(&value.services),
        }
    }
}

impl vstd::std_specs::convert::FromSpecImpl<&ManagedTenant> for ManagedTenant {
    /// A copy is a new value of the same content, not claimed identical.
    open spec fn obeys_from_spec() -> bool {
        false
    }

    open spec fn from_spec(v: &ManagedTenant) -> ManagedTenant {
        *v
    }
}

impl PortMapping {
    /// The two records hold the same content.
    pub open spec fn same_content(self, other: PortMapping) -> bool {
        &&& self.auth == other.auth
        &&& self.mode == other.mode
        &&& self.paths@ == other.paths@
        &&& self.service_group == other.service_group
        &&& self.tls == other.tls
        &&& self.vhost == other.vhost
        &&& self.whitelist == other.whitelist
    }
}

impl From<&PortMapping> for PortMapping {
    /// A copy of `value`.
    fn from(value: &PortMapping) -> (res: Self)
        ensures
            res.same_content(*value),
    {
        PortMapping {
            auth: match &value.auth {
                Some(s) => Some(s.clone()),
                None => None,
            },
            mode: match &value.mode {
                Some(s) => Some(s.clone()),
                None => None,
            },
            paths: clone_path_specs(&value.paths),
            service_group: match &value.service_group {
                Some(s) => Some(s.clone()),
                None => None,
            },
            tls: value.tls,
            vhost: match &value.vhost {
                Some(s) => Some(s.clone()),
                None => None,
            },
            whitelist: match &value.whitelist {
                Some(s) => Some(s.clone()),
                None => None,
            },
        }
    }
}

impl vstd::std_specs::convert::FromSpecImpl<&PortMapping> for PortMapping {
    /// A copy is a new value of the same content, not claimed identical.
    open spec fn obeys_from_spec() -> bool {
        false
    }

    open spec fn from_spec(v: &PortMapping) -> PortMapping {
        *v
    }
}

impl Topic {
    /// The two records hold the same content.
    pub open spec fn same_content(self, other: Topic) -> bool {
        &&& self.kafka_properties@ == other.kafka_properties@
        &&& self.partitions == other.partitions
        &&& self.replication_factor == other.replication_factor
    }
}

impl From<&Topic> for Topic {
    /// A copy of `value`.
    fn from(value: &Topic) -> (res: Self)
        ensures
            res.same_content(*value),
    {
        Topic {
            kafka_properties: value.kafka_properties.clone(),
            partitions: value.partitions,
            replication_factor: value.replication_factor,
        }
    }
}

impl vstd::std_specs::convert::FromSpecImpl<&Topic> for Topic {
    /// A copy is a new value of the same content, not claimed identical.
    open spec fn obeys_from_spec() -> bool {
        false
    }

    open spec fn from_spec(v: &Topic) -> Topic {
        *v
    }
}

impl BucketAccessStatus {
    /// The two records hold the same content.
    pub open spec fn same_content(self, other: BucketAccessStatus) -> bool {
        &&& self.actual == other.actual
        &&& self.configuration == other.configuration
        &&& self.status.same_content(other.status)
    }
}

impl From<&BucketAccessStatus> for BucketAccessStatus {
    /// A copy of `value`.
    fn from(value: &BucketAccessStatus) -> (res: Self)
        ensures
            res.same_content(*value),
    {
        BucketAccessStatus {
            actual: match &value.actual {
                Some(s) => Some(BucketAccess::from(s)),
                None => None,
            },
            configuration: match &value.configuration {
                Some(s) => Some(BucketAccessConfiguration::from(s)),
                None => None,
            },
            status: AllocationStatus::from(&value.status),
        }
    }
}

impl vstd::std_specs::convert::FromSpecImpl<&BucketAccessStatus> for BucketAccessStatus {
    /// A copy is a new value of the same content, not claimed identical.
    open spec fn obeys_from_spec() -> bool {
        false
    }

    open spec fn from_spec(v: &BucketAccessStatus) -> BucketAccessStatus {
        *v
    }
}

impl BucketStatus {
    /// The two records hold the same content.
    pub open spec fn same_content(self, other: BucketStatus) -> bool {
        &&& self.actual == other.actual
        &&& self.configuration == other.configuration
        &&& self.status.same_content(other.status)
    }
}

impl From<&BucketStatus> for BucketStatus {
    /// A copy of `value`.
    fn from(value: &BucketStatus) -> (res: Self)
        ensures
            res.same_content(*value),
    {
        BucketStatus {
            actual: match &value.actual {
                Some(s) => Some(Bucket::from(s)),
                None => None,
            },
            configuration: match &value.configuration {
                Some(s) => Some(Bucket::from(s)),
                None => None,
            },
            status: AllocationStatus::from(&value.status),
        }
    }
}

impl vstd::std_specs::convert::FromSpecImpl<&BucketStatus> for BucketStatus {
    /// A copy is a new value of the same content, not claimed identical.
    open spec fn obeys_from_spec() -> bool {
        false
    }

    open spec fn from_spec(v: &BucketStatus) -> BucketStatus {
        *v
    }
}

impl BucketWatchStatus {
    /// The two records hold the same content.
    pub open spec fn same_content(self, other: BucketWatchStatus) -> bool {
        &&& self.actual == other.actual
        &&& self.configuration == other.configuration
        &&& self.status.same_content(other.status)
    }
}

impl From<&BucketWatchStatus> for BucketWatchStatus {
    /// A copy of `value`.
    fn from(value: &BucketWatchStatus) -> (res: Self)
        ensures
            res.same_content(*value),
    {
        BucketWatchStatus {
            actual: match &value.actual {
                Some(s) => Some(BucketWatch::from(s)),
                None => None,
            },
            configuration: match &value.configuration {
                Some(s) => Some(BucketWatch::from(s)),
                None => None,
            },
            status: AllocationStatus::from(&value.status),
        }
    }
}

impl vstd::std_specs::convert::FromSpecImpl<&BucketWatchStatus> for BucketWatchStatus {
    /// A copy is a new value of the same content, not claimed identical.
    open spec fn obeys_from_spec() -> bool {
        false
    }

    open spec fn from_spec(v: &BucketWatchStatus) -> BucketWatchStatus {
        *v
    }
}

impl DataCatalogAssetStatus {
    /// The two records hold the same content.
    pub open spec fn same_content(self, other: DataCatalogAssetStatus) -> bool {
        &&& self.actual == other.actual
        &&& self.configuration == other.configuration
        &&& self.status.same_content(other.status)
    }
}

impl From<&DataCatalogAssetStatus> for DataCatalogAssetStatus {
    /// A copy of `value`.
    fn from(value: &DataCatalogAssetStatus) -> (res: Self)
        ensures
            res.same_content(*value),
    {
        DataCatalogAssetStatus {
            actual: match &value.actual {
                Some(s) => Some(DataCatalogAsset::from(s)),
                None => None,
            },
            configuration: match &value.configuration {
                Some(s) => Some(DataCatalogAsset::from(s)),
                None => None,
            },
            status: AllocationStatus::from(&value.status),
        }
    }
}

impl vstd::std_specs::convert::FromSpecImpl<&DataCatalogAssetStatus> for DataCatalogAssetStatus {
    /// A copy is a new value of the same content, not claimed identical.
    open spec fn obeys_from_spec() -> bool {
        false
    }

    open spec fn from_spec(v: &DataCatalogAssetStatus) -> DataCatalogAssetStatus {
        *v
    }
}

impl ThirdPartyBucketConcessionStatus {
    /// The two records hold the same content.
    pub open spec fn same_content(self, other: ThirdPartyBucketConcessionStatus) -> bool {
        &&& self.actual == other.actual
        &&& self.configuration == other.configuration
        &&& self.status.same_content(other.status)
    }
}

impl From<&ThirdPartyBucketConcessionStatus> for ThirdPartyBucketConcessionStatus {
    /// A copy of `value`.
    fn from(value: &ThirdPartyBucketConcessionStatus) -> (res: Self)
        ensures
            res.same_content(*value),
    {
        ThirdPartyBucketConcessionStatus {
            actual: match &value.actual {
                Some(s) => Some(ThirdPartyBucketConcession::from(s)),
                None => None,
            },
            configuration: match &value.configuration {
                Some(s) => Some(ThirdPartyBucketConcessionConfiguration::from(s)),
                None => None,
            },
            status: AllocationStatus::from(&value.status),
        }
    }
}

impl vstd::std_specs::convert::FromSpecImpl<&ThirdPartyBucketConcessionStatus> for ThirdPartyBucketConcessionStatus {
    /// A copy is a new value of the same content, not claimed identical.
    open spec fn obeys_from_spec() -> bool {
        false
    }

    open spec fn from_spec(v: &ThirdPartyBucketConcessionStatus) -> ThirdPartyBucketConcessionStatus {
        *v
    }
}

impl VolumeStatus {
    /// The two records hold the same content.
    pub open spec fn same_content(self, other: VolumeStatus) -> bool {
        &&& self.actual == other.actual
        &&& self.configuration == other.configuration
        &&& self.status.same_content(other.status)
    }
}

impl From<&VolumeStatus> for VolumeStatus {
    /// A copy of `value`.
    fn from(value: &VolumeStatus) -> (res: Self)
        ensures
            res.same_content(*value),
    {
        VolumeStatus {
            actual: match &value.actual {
                Some(s) => Some(Volume::from(s)),
                None => None,
            },
            configuration: match &value.configuration {
                Some(s) => Some(Volume::from(s)),
                None => None,
            },
            status: AllocationStatus::from(&value.status),
        }
    }
}

impl vstd::std_specs::convert::FromSpecImpl<&VolumeStatus> for VolumeStatus {
    /// A copy is a new value of the same content, not claimed identical.
    open spec fn obeys_from_spec() -> bool {
        false
    }

    open spec fn from_spec(v: &VolumeStatus) -> VolumeStatus {
        *v
    }
}

impl TopicStatus {
    /// The two records hold the same content.
    pub open spec fn same_content(self, other: TopicStatus) -> bool {
        &&& match (self.actual, other.actual) {
            (Some(a), Some(b)) => a.same_content(b),
            (None, None) => true,
            _ => false,
        }
        &&& match (self.configuration, other.configuration) {
            (Some(a), Some(b)) => a.same_content(b),
            (None, None) => true,
            _ => false,
        }
        &&& self.status.same_content(other.status)
    }
}

impl From<&TopicStatus> for TopicStatus {
    /// A copy of `value`.
    fn from(value: &TopicStatus) -> (res: Self)
        ensures
            res.same_content(*value),
    {
        TopicStatus {
            actual: match &value.actual {
                Some(s) => Some(Topic::from(s)),
                None => None,
            },
            configuration: match &value.configuration {
                Some(s) => Some(Topic::from(s)),
                None => None,
            },
            status: AllocationStatus::from(&value.status),
        }
    }
}

impl vstd::std_specs::convert::FromSpecImpl<&TopicStatus> for TopicStatus {
    /// A copy is a new value of the same content, not claimed identical.
    open spec fn obeys_from_spec() -> bool {
        false
    }

    open spec fn from_spec(v: &TopicStatus) -> TopicStatus {
        *v
    }
}

impl From<&AllocationStatus1> for AllocationStatus1 {
    /// A copy of `value`.
    fn from(value: &AllocationStatus1) -> (res: Self)
        ensures
            res.0.same_content(value.0),
    {
        AllocationStatus1(AllocationStatus::from(&value.0))
    }
}

impl vstd::std_specs::convert::FromSpecImpl<&AllocationStatus1> for AllocationStatus1 {
    /// A copy is a new value of the same content, not claimed identical.
    open spec fn obeys_from_spec() -> bool {
        false
    }

    open spec fn from_spec(v: &AllocationStatus1) -> AllocationStatus1 {
        *v
    }
}

impl From<&ChildList> for ChildList {
    /// A copy of `value`.
    fn from(value: &ChildList) -> (res: Self)
        ensures
            res.0@ == value.0@,
    {
        ChildList(clone_strings(&value.0))
    }
}

impl vstd::std_specs::convert::FromSpecImpl<&ChildList> for ChildList {
    /// A copy is a new value of the same content, not claimed identical.
    open spec fn obeys_from_spec() -> bool {
        false
    }

    open spec fn from_spec(v: &ChildList) -> ChildList {
        *v
    }
}

} // verus!
