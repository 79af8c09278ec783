//! Types used as operation parameters and responses of the DSH tenant
//! resource management REST API.
pub mod error;
pub mod enums;
pub mod structs;
pub mod wrappers;
pub mod defaults;
pub mod copies;

pub use enums::{
    BaseLimitValueName,
    GetManageByManagerTenantByTenantLimitByKindKind,
    HealthCheckProtocol,
    KafkaProxyValidationSubjectType,
    KafkaProxyZone,
    LimitValueCertificateCountName,
    LimitValueConsumerRateName,
    LimitValueCpuName,
    LimitValueMemName,
    LimitValuePartitionCountName,
    LimitValueProducerRateName,
    LimitValueRequestRateName,
    LimitValueSecretCountName,
    LimitValueTopicCountName,
    ManagedTenantServicesName,
    PortMappingTls,
    PutManageByManagerTenantByTenantLimitByKindKind,
    TaskState,
    ZoneNetwork,
};
pub use structs::{
    AllocationStatus,
    AppCatalogAppConfiguration,
    ApplicationSecret,
    ApplicationVolumes,
    BaseLimitValue,
    Bucket,
    BucketAccess,
    BucketAccessConfiguration,
    BucketAccessStatus,
    BucketStatus,
    BucketWatch,
    BucketWatchStatus,
    Certificate,
    DataCatalogAsset,
    DataCatalogAssetStatus,
    Empty,
    HealthCheck,
    KafkaProxyValidation,
    LimitValueCertificateCount,
    LimitValueCertificateCountAllOf,
    LimitValueConsumerRate,
    LimitValueConsumerRateAllOf,
    LimitValueMem,
    LimitValueMemAllOf,
    LimitValuePartitionCount,
    LimitValuePartitionCountAllOf,
    LimitValueProducerRate,
    LimitValueProducerRateAllOf,
    LimitValueRequestRate,
    LimitValueRequestRateAllOf,
    LimitValueSecretCount,
    LimitValueSecretCountAllOf,
    LimitValueTopicCount,
    LimitValueTopicCountAllOf,
    ManagedTenant,
    ManagedTenantServices,
    Metrics,
    Notification,
    PathSpec,
    PortMapping,
    Secret,
    ThirdPartyBucketConcession,
    ThirdPartyBucketConcessionConfiguration,
    ThirdPartyBucketConcessionRegistration,
    ThirdPartyBucketConcessionStatus,
    Topic,
    TopicStatus,
    Validations,
    Vhost,
    Volume,
    VolumeStatus,
    Zone,
};
pub use wrappers::{AllocationStatus1, ChildList};
pub use error::ConversionError;
