//! The records of the REST API.
use vstd::prelude::*;
use std::collections::HashMap;
use crate::types::enums::{
    BaseLimitValueName, HealthCheckProtocol, KafkaProxyValidationSubjectType,
    LimitValueCertificateCountName, LimitValueConsumerRateName, LimitValueMemName,
    LimitValuePartitionCountName, LimitValueProducerRateName, LimitValueRequestRateName,
    LimitValueSecretCountName, LimitValueTopicCountName, ManagedTenantServicesName, PortMappingTls,
    ZoneNetwork,
};

verus! {

#[derive(Clone, Debug)]
pub struct AllocationStatus {
    pub derived_from: Option<String>,
    pub notifications: Vec<Notification>,
    pub provisioned: bool,
}

#[derive(Clone, Debug)]
pub struct AppCatalogAppConfiguration {
    pub configuration: HashMap<String, String>,
    pub manifest_urn: String,
    pub name: String,
    pub stopped: bool,
}

/// A secret to be injected as an environment variable in the application
#[derive(Clone, Debug)]
pub struct ApplicationSecret {
    pub injections: Vec<HashMap<String, String>>,
    pub name: String,
}

#[derive(Clone, Debug)]
pub struct ApplicationVolumes {
    pub name: String,
}

impl From<&ApplicationVolumes> for ApplicationVolumes {
    fn from(value: &ApplicationVolumes) -> (res: Self) {
        ApplicationVolumes {
            name: value.name.clone(),
        }
    }
}

impl vstd::std_specs::convert::FromSpecImpl<&ApplicationVolumes> for ApplicationVolumes {
    open spec fn obeys_from_spec() -> bool {
        true
    }

    open spec fn from_spec(v: &ApplicationVolumes) -> ApplicationVolumes {
        *v
    }
}

#[derive(Clone, Debug)]
pub struct BaseLimitValue {
    pub name: BaseLimitValueName,
}

impl From<&BaseLimitValue> for BaseLimitValue {
    fn from(value: &BaseLimitValue) -> (res: Self) {
        BaseLimitValue {
            name: value.name,
        }
    }
}

impl vstd::std_specs::convert::FromSpecImpl<&BaseLimitValue> for BaseLimitValue {
    open spec fn obeys_from_spec() -> bool {
        true
    }

    open spec fn from_spec(v: &BaseLimitValue) -> BaseLimitValue {
        *v
    }
}

#[derive(Clone, Debug)]
pub struct Bucket {
    pub encrypted: bool,
    pub versioned: bool,
}

impl From<&Bucket> for Bucket {
    fn from(value: &Bucket) -> (res: Self) {
        Bucket {
            encrypted: value.encrypted,
            versioned: value.versioned,
        }
    }
}

impl vstd::std_specs::convert::FromSpecImpl<&Bucket> for Bucket {
    open spec fn obeys_from_spec() -> bool {
        true
    }

    open spec fn from_spec(v: &Bucket) -> Bucket {
        *v
    }
}

#[derive(Clone, Debug)]
pub struct BucketAccess {
    pub bucket: String,
    pub credentialidentifierref: String,
    pub credentialsecretref: String,
    pub name: String,
    pub readable: bool,
    pub writable: bool,
}

impl From<&BucketAccess> for BucketAccess {
    fn from(value: &BucketAccess) -> (res: Self) {
        BucketAccess {
            bucket: value.bucket.clone(),
            credentialidentifierref: value.credentialidentifierref.clone(),
            credentialsecretref: value.credentialsecretref.clone(),
            name: value.name.clone(),
            readable: value.readable,
            writable: value.writable,
        }
    }
}

impl vstd::std_specs::convert::FromSpecImpl<&BucketAccess> for BucketAccess {
    open spec fn obeys_from_spec() -> bool {
        true
    }

    open spec fn from_spec(v: &BucketAccess) -> BucketAccess {
        *v
    }
}

#[derive(Clone, Debug)]
pub struct BucketAccessConfiguration {
    pub bucket: String,
    pub name: String,
    pub readable: bool,
    pub writable: bool,
}

impl From<&BucketAccessConfiguration> for BucketAccessConfiguration {
    fn from(value: &BucketAccessConfiguration) -> (res: Self) {
        BucketAccessConfiguration {
            bucket: value.bucket.clone(),
            name: value.name.clone(),
            readable: value.readable,
            writable: value.writable,
        }
    }
}

impl vstd::std_specs::convert::FromSpecImpl<&BucketAccessConfiguration> for BucketAccessConfiguration {
    open spec fn obeys_from_spec() -> bool {
        true
    }

    open spec fn from_spec(v: &BucketAccessConfiguration) -> BucketAccessConfiguration {
        *v
    }
}

#[derive(Clone, Debug)]
pub struct BucketAccessStatus {
    pub actual: Option<BucketAccess>,
    pub configuration: Option<BucketAccessConfiguration>,
    pub status: AllocationStatus,
}

#[derive(Clone, Debug)]
pub struct BucketStatus {
    pub actual: Option<Bucket>,
    pub configuration: Option<Bucket>,
    pub status: AllocationStatus,
}

#[derive(Clone, Debug)]
pub struct BucketWatch {
    pub bucket: String,
}

impl From<&BucketWatch> for BucketWatch {
    fn from(value: &BucketWatch) -> (res: Self) {
        BucketWatch {
            bucket: value.bucket.clone(),
        }
    }
}

impl vstd::std_specs::convert::FromSpecImpl<&BucketWatch> for BucketWatch {
    open spec fn obeys_from_spec() -> bool {
        true
    }

    open spec fn from_spec(v: &BucketWatch) -> BucketWatch {
        *v
    }
}

#[derive(Clone, Debug)]
pub struct BucketWatchStatus {
    pub actual: Option<BucketWatch>,
    pub configuration: Option<BucketWatch>,
    pub status: AllocationStatus,
}

/// Information on a certificate which is wanted on the platform but may not yet be provisioned
#[derive(Clone, Debug)]
pub struct Certificate {
    pub cert_chain_secret: String,
    pub key_secret: String,
    pub passphrase_secret: Option<String>,
}

impl From<&Certificate> for Certificate {
    fn from(value: &Certificate) -> (res: Self) {
        Certificate {
            cert_chain_secret: value.cert_chain_secret.clone(),
            key_secret: value.key_secret.clone(),
            passphrase_secret: match &value.passphrase_secret {
                Some(s) => Some(s.clone()),
                None => None,
            },
        }
    }
}

impl vstd::std_specs::convert::FromSpecImpl<&Certificate> for Certificate {
    open spec fn obeys_from_spec() -> bool {
        true
    }

    open spec fn from_spec(v: &Certificate) -> Certificate {
        *v
    }
}

#[derive(Clone, Debug)]
pub struct DataCatalogAsset {
    pub kind: String,
    pub name: String,
}

impl From<&DataCatalogAsset> for DataCatalogAsset {
    fn from(value: &DataCatalogAsset) -> (res: Self) {
        DataCatalogAsset {
            kind: value.kind.clone(),
            name: value.name.clone(),
        }
    }
}

impl vstd::std_specs::convert::FromSpecImpl<&DataCatalogAsset> for DataCatalogAsset {
    open spec fn obeys_from_spec() -> bool {
        true
    }

    open spec fn from_spec(v: &DataCatalogAsset) -> DataCatalogAsset {
        *v
    }
}

#[derive(Clone, Debug)]
pub struct DataCatalogAssetStatus {
    pub actual: Option<DataCatalogAsset>,
    pub configuration: Option<DataCatalogAsset>,
    pub status: AllocationStatus,
}

#[derive(Clone, Debug)]
pub struct Empty {}

impl From<&Empty> for Empty {
    fn from(value: &Empty) -> (res: Self) {
        Empty {}
    }
}

impl vstd::std_specs::convert::FromSpecImpl<&Empty> for Empty {
    open spec fn obeys_from_spec() -> bool {
        true
    }

    open spec fn from_spec(v: &Empty) -> Empty {
        *v
    }
}

#[derive(Clone, Debug)]
pub struct HealthCheck {
    pub path: String,
    pub port: u64,
    pub protocol: Option<HealthCheckProtocol>,
}

impl From<&HealthCheck> for HealthCheck {
    fn from(value: &HealthCheck) -> (res: Self) {
        HealthCheck {
            path: value.path.clone(),
            port: value.port,
            protocol: value.protocol,
        }
    }
}

impl vstd::std_specs::convert::FromSpecImpl<&HealthCheck> for HealthCheck {
    open spec fn obeys_from_spec() -> bool {
        true
    }

    open spec fn from_spec(v: &HealthCheck) -> HealthCheck {
        *v
    }
}

/// Client certificate validations, only non empty values taken in account, no values means no validation
#[derive(Clone, Debug)]
pub struct KafkaProxyValidation {
    pub common_name: Option<String>,
    pub country: Option<String>,
    pub locality: Option<String>,
    pub organization: Option<String>,
    pub organizational_unit: Option<String>,
    pub province: Option<String>,
    pub subject_type: KafkaProxyValidationSubjectType,
}

impl From<&KafkaProxyValidation> for KafkaProxyValidation {
    fn from(value: &KafkaProxyValidation) -> (res: Self) {
        KafkaProxyValidation {
            common_name: match &value.common_name {
                Some(s) => Some(s.clone()),
                None => None,
            },
            country: match &value.country {
                Some(s) => Some(s.clone()),
                None => None,
            },
            locality: match &value.locality {
                Some(s) => Some(s.clone()),
                None => None,
            },
            organization: match &value.organization {
                Some(s) => Some(s.clone()),
                None => None,
            },
            organizational_unit: match &value.organizational_unit {
                Some(s) => Some(s.clone()),
                None => None,
            },
            province: match &value.province {
                Some(s) => Some(s.clone()),
                None => None,
            },
            subject_type: value.subject_type,
        }
    }
}

impl vstd::std_specs::convert::FromSpecImpl<&KafkaProxyValidation> for KafkaProxyValidation {
    open spec fn obeys_from_spec() -> bool {
        true
    }

    open spec fn from_spec(v: &KafkaProxyValidation) -> KafkaProxyValidation {
        *v
    }
}

#[derive(Clone, Debug)]
pub struct LimitValueCertificateCount {
    pub name: LimitValueCertificateCountName,
    pub value: i64,
}

impl From<&LimitValueCertificateCount> for LimitValueCertificateCount {
    fn from(value: &LimitValueCertificateCount) -> (res: Self) {
        LimitValueCertificateCount {
            name: value.name,
            value: value.value,
        }
    }
}

impl vstd::std_specs::convert::FromSpecImpl<&LimitValueCertificateCount> for LimitValueCertificateCount {
    open spec fn obeys_from_spec() -> bool {
        true
    }

    open spec fn from_spec(v: &LimitValueCertificateCount) -> LimitValueCertificateCount {
        *v
    }
}

#[derive(Clone, Debug)]
pub struct LimitValueCertificateCountAllOf {
    pub value: i64,
}

impl From<&LimitValueCertificateCountAllOf> for LimitValueCertificateCountAllOf {
    fn from(value: &LimitValueCertificateCountAllOf) -> (res: Self) {
        LimitValueCertificateCountAllOf {
            value: value.value,
        }
    }
}

impl vstd::std_specs::convert::FromSpecImpl<&LimitValueCertificateCountAllOf> for LimitValueCertificateCountAllOf {
    open spec fn obeys_from_spec() -> bool {
        true
    }

    open spec fn from_spec(v: &LimitValueCertificateCountAllOf) -> LimitValueCertificateCountAllOf {
        *v
    }
}

#[derive(Clone, Debug)]
pub struct LimitValueConsumerRate {
    pub name: LimitValueConsumerRateName,
    pub value: i64,
}

impl From<&LimitValueConsumerRate> for LimitValueConsumerRate {
    fn from(value: &LimitValueConsumerRate) -> (res: Self) {
        LimitValueConsumerRate {
            name: value.name,
            value: value.value,
        }
    }
}

impl vstd::std_specs::convert::FromSpecImpl<&LimitValueConsumerRate> for LimitValueConsumerRate {
    open spec fn obeys_from_spec() -> bool {
        true
    }

    open spec fn from_spec(v: &LimitValueConsumerRate) -> LimitValueConsumerRate {
        *v
    }
}

#[derive(Clone, Debug)]
pub struct LimitValueConsumerRateAllOf {
    pub value: i64,
}

impl From<&LimitValueConsumerRateAllOf> for LimitValueConsumerRateAllOf {
    fn from(value: &LimitValueConsumerRateAllOf) -> (res: Self) {
        LimitValueConsumerRateAllOf {
            value: value.value,
        }
    }
}

impl vstd::std_specs::convert::FromSpecImpl<&LimitValueConsumerRateAllOf> for LimitValueConsumerRateAllOf {
    open spec fn obeys_from_spec() -> bool {
        true
    }

    open spec fn from_spec(v: &LimitValueConsumerRateAllOf) -> LimitValueConsumerRateAllOf {
        *v
    }
}

#[derive(Clone, Debug)]
pub struct LimitValueMem {
    pub name: LimitValueMemName,
    pub value: i64,
}

impl From<&LimitValueMem> for LimitValueMem {
    fn from(value: &LimitValueMem) -> (res: Self) {
        LimitValueMem {
            name: value.name,
            value: value.value,
        }
    }
}

impl vstd::std_specs::convert::FromSpecImpl<&LimitValueMem> for LimitValueMem {
    open spec fn obeys_from_spec() -> bool {
        true
    }

    open spec fn from_spec(v: &LimitValueMem) -> LimitValueMem {
        *v
    }
}

#[derive(Clone, Debug)]
pub struct LimitValueMemAllOf {
    pub value: i64,
}

impl From<&LimitValueMemAllOf> for LimitValueMemAllOf {
    fn from(value: &LimitValueMemAllOf) -> (res: Self) {
        LimitValueMemAllOf {
            value: value.value,
        }
    }
}

impl vstd::std_specs::convert::FromSpecImpl<&LimitValueMemAllOf> for LimitValueMemAllOf {
    open spec fn obeys_from_spec() -> bool {
        true
    }

    open spec fn from_spec(v: &LimitValueMemAllOf) -> LimitValueMemAllOf {
        *v
    }
}

#[derive(Clone, Debug)]
pub struct LimitValuePartitionCount {
    pub name: LimitValuePartitionCountName,
    pub value: i64,
}

impl From<&LimitValuePartitionCount> for LimitValuePartitionCount {
    fn from(value: &LimitValuePartitionCount) -> (res: Self) {
        LimitValuePartitionCount {
            name: value.name,
            value: value.value,
        }
    }
}

impl vstd::std_specs::convert::FromSpecImpl<&LimitValuePartitionCount> for LimitValuePartitionCount {
    open spec fn obeys_from_spec() -> bool {
        true
    }

    open spec fn from_spec(v: &LimitValuePartitionCount) -> LimitValuePartitionCount {
        *v
    }
}

#[derive(Clone, Debug)]
pub struct LimitValuePartitionCountAllOf {
    pub value: i64,
}

impl From<&LimitValuePartitionCountAllOf> for LimitValuePartitionCountAllOf {
    fn from(value: &LimitValuePartitionCountAllOf) -> (res: Self) {
        LimitValuePartitionCountAllOf {
            value: value.value,
        }
    }
}

impl vstd::std_specs::convert::FromSpecImpl<&LimitValuePartitionCountAllOf> for LimitValuePartitionCountAllOf {
    open spec fn obeys_from_spec() -> bool {
        true
    }

    open spec fn from_spec(v: &LimitValuePartitionCountAllOf) -> LimitValuePartitionCountAllOf {
        *v
    }
}

#[derive(Clone, Debug)]
pub struct LimitValueProducerRate {
    pub name: LimitValueProducerRateName,
    pub value: i64,
}

impl From<&LimitValueProducerRate> for LimitValueProducerRate {
    fn from(value: &LimitValueProducerRate) -> (res: Self) {
        LimitValueProducerRate {
            name: value.name,
            value: value.value,
        }
    }
}

impl vstd::std_specs::convert::FromSpecImpl<&LimitValueProducerRate> for LimitValueProducerRate {
    open spec fn obeys_from_spec() -> bool {
        true
    }

    open spec fn from_spec(v: &LimitValueProducerRate) -> LimitValueProducerRate {
        *v
    }
}

#[derive(Clone, Debug)]
pub struct LimitValueProducerRateAllOf {
    pub value: i64,
}

impl From<&LimitValueProducerRateAllOf> for LimitValueProducerRateAllOf {
    fn from(value: &LimitValueProducerRateAllOf) -> (res: Self) {
        LimitValueProducerRateAllOf {
            value: value.value,
        }
    }
}

impl vstd::std_specs::convert::FromSpecImpl<&LimitValueProducerRateAllOf> for LimitValueProducerRateAllOf {
    open spec fn obeys_from_spec() -> bool {
        true
    }

    open spec fn from_spec(v: &LimitValueProducerRateAllOf) -> LimitValueProducerRateAllOf {
        *v
    }
}

#[derive(Clone, Debug)]
pub struct LimitValueRequestRate {
    pub name: LimitValueRequestRateName,
    pub value: i64,
}

impl From<&LimitValueRequestRate> for LimitValueRequestRate {
    fn from(value: &LimitValueRequestRate) -> (res: Self) {
        LimitValueRequestRate {
            name: value.name,
            value: value.value,
        }
    }
}

impl vstd::std_specs::convert::FromSpecImpl<&LimitValueRequestRate> for LimitValueRequestRate {
    open spec fn obeys_from_spec() -> bool {
        true
    }

    open spec fn from_spec(v: &LimitValueRequestRate) -> LimitValueRequestRate {
        *v
    }
}

#[derive(Clone, Debug)]
pub struct LimitValueRequestRateAllOf {
    pub value: i64,
}

impl From<&LimitValueRequestRateAllOf> for LimitValueRequestRateAllOf {
    fn from(value: &LimitValueRequestRateAllOf) -> (res: Self) {
        LimitValueRequestRateAllOf {
            value: value.value,
        }
    }
}

impl vstd::std_specs::convert::FromSpecImpl<&LimitValueRequestRateAllOf> for LimitValueRequestRateAllOf {
    open spec fn obeys_from_spec() -> bool {
        true
    }

    open spec fn from_spec(v: &LimitValueRequestRateAllOf) -> LimitValueRequestRateAllOf {
        *v
    }
}

#[derive(Clone, Debug)]
pub struct LimitValueSecretCount {
    pub name: LimitValueSecretCountName,
    pub value: i64,
}

impl From<&LimitValueSecretCount> for LimitValueSecretCount {
    fn from(value: &LimitValueSecretCount) -> (res: Self) {
        LimitValueSecretCount {
            name: value.name,
            value: value.value,
        }
    }
}

impl vstd::std_specs::convert::FromSpecImpl<&LimitValueSecretCount> for LimitValueSecretCount {
    open spec fn obeys_from_spec() -> bool {
        true
    }

    open spec fn from_spec(v: &LimitValueSecretCount) -> LimitValueSecretCount {
        *v
    }
}

#[derive(Clone, Debug)]
pub struct LimitValueSecretCountAllOf {
    pub value: i64,
}

impl From<&LimitValueSecretCountAllOf> for LimitValueSecretCountAllOf {
    fn from(value: &LimitValueSecretCountAllOf) -> (res: Self) {
        LimitValueSecretCountAllOf {
            value: value.value,
        }
    }
}

impl vstd::std_specs::convert::FromSpecImpl<&LimitValueSecretCountAllOf> for LimitValueSecretCountAllOf {
    open spec fn obeys_from_spec() -> bool {
        true
    }

    open spec fn from_spec(v: &LimitValueSecretCountAllOf) -> LimitValueSecretCountAllOf {
        *v
    }
}

#[derive(Clone, Debug)]
pub struct LimitValueTopicCount {
    pub name: LimitValueTopicCountName,
    pub value: i64,
}

impl From<&LimitValueTopicCount> for LimitValueTopicCount {
    fn from(value: &LimitValueTopicCount) -> (res: Self) {
        LimitValueTopicCount {
            name: value.name,
            value: value.value,
        }
    }
}

impl vstd::std_specs::convert::FromSpecImpl<&LimitValueTopicCount> for LimitValueTopicCount {
    open spec fn obeys_from_spec() -> bool {
        true
    }

    open spec fn from_spec(v: &LimitValueTopicCount) -> LimitValueTopicCount {
        *v
    }
}

#[derive(Clone, Debug)]
pub struct LimitValueTopicCountAllOf {
    pub value: i64,
}

impl From<&LimitValueTopicCountAllOf> for LimitValueTopicCountAllOf {
    fn from(value: &LimitValueTopicCountAllOf) -> (res: Self) {
        LimitValueTopicCountAllOf {
            value: value.value,
        }
    }
}

impl vstd::std_specs::convert::FromSpecImpl<&LimitValueTopicCountAllOf> for LimitValueTopicCountAllOf {
    open spec fn obeys_from_spec() -> bool {
        true
    }

    open spec fn from_spec(v: &LimitValueTopicCountAllOf) -> LimitValueTopicCountAllOf {
        *v
    }
}

#[derive(Clone, Debug)]
pub struct ManagedTenant {
    pub manager: String,
    pub name: String,
    pub services: Vec<ManagedTenantServices>,
}

#[derive(Clone, Debug)]
pub struct ManagedTenantServices {
    pub enabled: bool,
    pub name: ManagedTenantServicesName,
}

impl From<&ManagedTenantServices> for ManagedTenantServices {
    fn from(value: &ManagedTenantServices) -> (res: Self) {
        ManagedTenantServices {
            enabled: value.enabled,
            name: value.name,
        }
    }
}

impl vstd::std_specs::convert::FromSpecImpl<&ManagedTenantServices> for ManagedTenantServices {
    open spec fn obeys_from_spec() -> bool {
        true
    }

    open spec fn from_spec(v: &ManagedTenantServices) -> ManagedTenantServices {
        *v
    }
}

/// Metrics endpoint which will be scraped by the platform.
#[derive(Clone, Debug)]
pub struct Metrics {
    pub path: String,
    pub port: u64,
}

impl From<&Metrics> for Metrics {
    fn from(value: &Metrics) -> (res: Self) {
        Metrics {
            path: value.path.clone(),
            port: value.port,
        }
    }
}

impl vstd::std_specs::convert::FromSpecImpl<&Metrics> for Metrics {
    open spec fn obeys_from_spec() -> bool {
        true
    }

    open spec fn from_spec(v: &Metrics) -> Metrics {
        *v
    }
}

#[derive(Clone, Debug)]
pub struct Notification {
    pub args: HashMap<String, String>,
    pub message: String,
    pub remove: bool,
}

#[derive(Clone, Debug)]
pub struct PathSpec {
    pub prefix: String,
}

impl From<&PathSpec> for PathSpec {
    fn from(value: &PathSpec) -> (res: Self) {
        PathSpec {
            prefix: value.prefix.clone(),
        }
    }
}

impl vstd::std_specs::convert::FromSpecImpl<&PathSpec> for PathSpec {
    open spec fn obeys_from_spec() -> bool {
        true
    }

    open spec fn from_spec(v: &PathSpec) -> PathSpec {
        *v
    }
}

#[derive(Clone, Debug)]
pub struct PortMapping {
    pub auth: Option<String>,
    pub mode: Option<String>,
    pub paths: Vec<PathSpec>,
    pub service_group: Option<String>,
    pub tls: Option<PortMappingTls>,
    pub vhost: Option<String>,
    pub whitelist: Option<String>,
}

#[derive(Clone, Debug)]
pub struct Secret {
    pub name: String,
    pub value: String,
}

impl From<&Secret> for Secret {
    fn from(value: &Secret) -> (res: Self) {
        Secret {
            name: value.name.clone(),
            value: value.value.clone(),
        }
    }
}

impl vstd::std_specs::convert::FromSpecImpl<&Secret> for Secret {
    open spec fn obeys_from_spec() -> bool {
        true
    }

    open spec fn from_spec(v: &Secret) -> Secret {
        *v
    }
}

#[derive(Clone, Debug)]
pub struct ThirdPartyBucketConcession {
    pub credentialidentifierref: String,
    pub credentialsecretref: String,
    pub name: String,
    pub readable: bool,
    pub shareidentifier: String,
    pub writable: bool,
}

impl From<&ThirdPartyBucketConcession> for ThirdPartyBucketConcession {
    fn from(value: &ThirdPartyBucketConcession) -> (res: Self) {
        ThirdPartyBucketConcession {
            credentialidentifierref: value.credentialidentifierref.clone(),
            credentialsecretref: value.credentialsecretref.clone(),
            name: value.name.clone(),
            readable: value.readable,
            shareidentifier: value.shareidentifier.clone(),
            writable: value.writable,
        }
    }
}

impl vstd::std_specs::convert::FromSpecImpl<&ThirdPartyBucketConcession> for ThirdPartyBucketConcession {
    open spec fn obeys_from_spec() -> bool {
        true
    }

    open spec fn from_spec(v: &ThirdPartyBucketConcession) -> ThirdPartyBucketConcession {
        *v
    }
}

#[derive(Clone, Debug)]
pub struct ThirdPartyBucketConcessionConfiguration {
    pub name: String,
    pub shareidentifier: String,
}

impl From<&ThirdPartyBucketConcessionConfiguration> for ThirdPartyBucketConcessionConfiguration {
    fn from(value: &ThirdPartyBucketConcessionConfiguration) -> (res: Self) {
        ThirdPartyBucketConcessionConfiguration {
            name: value.name.clone(),
            shareidentifier: value.shareidentifier.clone(),
        }
    }
}

impl vstd::std_specs::convert::FromSpecImpl<&ThirdPartyBucketConcessionConfiguration> for ThirdPartyBucketConcessionConfiguration {
    open spec fn obeys_from_spec() -> bool {
        true
    }

    open spec fn from_spec(v: &ThirdPartyBucketConcessionConfiguration) -> ThirdPartyBucketConcessionConfiguration {
        *v
    }
}

#[derive(Clone, Debug)]
pub struct ThirdPartyBucketConcessionRegistration {
    pub credentialidentifierplaintext: String,
    pub credentialsecretplaintext: String,
    pub name: String,
    pub shareidentifier: String,
}

impl From<&ThirdPartyBucketConcessionRegistration> for ThirdPartyBucketConcessionRegistration {
    fn from(value: &ThirdPartyBucketConcessionRegistration) -> (res: Self) {
        ThirdPartyBucketConcessionRegistration {
            credentialidentifierplaintext: value.credentialidentifierplaintext.clone(),
            credentialsecretplaintext: value.credentialsecretplaintext.clone(),
            name: value.name.clone(),
            shareidentifier: value.shareidentifier.clone(),
        }
    }
}

impl vstd::std_specs::convert::FromSpecImpl<&ThirdPartyBucketConcessionRegistration> for ThirdPartyBucketConcessionRegistration {
    open spec fn obeys_from_spec() -> bool {
        true
    }

    open spec fn from_spec(v: &ThirdPartyBucketConcessionRegistration) -> ThirdPartyBucketConcessionRegistration {
        *v
    }
}

#[derive(Clone, Debug)]
pub struct ThirdPartyBucketConcessionStatus {
    pub actual: Option<ThirdPartyBucketConcession>,
    pub configuration: Option<ThirdPartyBucketConcessionConfiguration>,
    pub status: AllocationStatus,
}

#[derive(Clone, Debug)]
pub struct Topic {
    pub kafka_properties: HashMap<String, String>,
    pub partitions: i64,
    pub replication_factor: i64,
}

#[derive(Clone, Debug)]
pub struct TopicStatus {
    pub actual: Option<Topic>,
    pub configuration: Option<Topic>,
    pub status: AllocationStatus,
}

#[derive(Clone, Debug)]
pub struct Validations {
    pub common_name: Option<String>,
    pub country: Option<String>,
    pub locality: Option<String>,
    pub organization: Option<String>,
    pub organizational_unit: Option<String>,
    pub province: Option<String>,
    pub subject_type: Option<String>,
}

impl From<&Validations> for Validations {
    fn from(value: &Validations) -> (res: Self) {
        Validations {
            common_name: match &value.common_name {
                Some(s) => Some(s.clone()),
                None => None,
            },
            country: match &value.country {
                Some(s) => Some(s.clone()),
                None => None,
            },
            locality: match &value.locality {
                Some(s) => Some(s.clone()),
                None => None,
            },
            organization: match &value.organization {
                Some(s) => Some(s.clone()),
                None => None,
            },
            organizational_unit: match &value.organizational_unit {
                Some(s) => Some(s.clone()),
                None => None,
            },
            province: match &value.province {
                Some(s) => Some(s.clone()),
                None => None,
            },
            subject_type: match &value.subject_type {
                Some(s) => Some(s.clone()),
                None => None,
            },
        }
    }
}

impl vstd::std_specs::convert::FromSpecImpl<&Validations> for Validations {
    open spec fn obeys_from_spec() -> bool {
        true
    }

    open spec fn from_spec(v: &Validations) -> Validations {
        *v
    }
}

#[derive(Clone, Debug)]
pub struct Vhost {
    pub value: String,
}

impl From<&Vhost> for Vhost {
    fn from(value: &Vhost) -> (res: Self) {
        Vhost {
            value: value.value.clone(),
        }
    }
}

impl vstd::std_specs::convert::FromSpecImpl<&Vhost> for Vhost {
    open spec fn obeys_from_spec() -> bool {
        true
    }

    open spec fn from_spec(v: &Vhost) -> Vhost {
        *v
    }
}

#[derive(Clone, Debug)]
pub struct Volume {
    pub size_gi_b: i64,
}

impl From<&Volume> for Volume {
    fn from(value: &Volume) -> (res: Self) {
        Volume {
            size_gi_b: value.size_gi_b,
        }
    }
}

impl vstd::std_specs::convert::FromSpecImpl<&Volume> for Volume {
    open spec fn obeys_from_spec() -> bool {
        true
    }

    open spec fn from_spec(v: &Volume) -> Volume {
        *v
    }
}

#[derive(Clone, Debug)]
pub struct VolumeStatus {
    pub actual: Option<Volume>,
    pub configuration: Option<Volume>,
    pub status: AllocationStatus,
}

/// Available networks on this platform
#[derive(Clone, Debug)]
pub struct Zone {
    pub network: ZoneNetwork,
}

impl From<&Zone> for Zone {
    fn from(value: &Zone) -> (res: Self) {
        Zone {
            network: value.network,
        }
    }
}

impl vstd::std_specs::convert::FromSpecImpl<&Zone> for Zone {
    open spec fn obeys_from_spec() -> bool {
        true
    }

    open spec fn from_spec(v: &Zone) -> Zone {
        *v
    }
}

} // verus!
