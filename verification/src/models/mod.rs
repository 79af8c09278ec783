//! Request and response models of the DSH tenant resource management REST
//! API, each with a constructor from its required fields.
pub mod actual_certificate_all_of;
pub mod application_secret;
pub mod bucket_access_status;
pub mod certificate;
pub mod limit_value_request_rate;
pub mod limit_value_topic_count_all_of;
pub mod managed_tenant;
pub mod path_spec;
pub mod third_party_bucket_concession;
pub mod volume;
pub mod zone;

pub use actual_certificate_all_of::ActualCertificateAllOf;
pub use application_secret::ApplicationSecret;
pub use bucket_access_status::BucketAccessStatus;
pub use certificate::Certificate;
pub use limit_value_request_rate::{LimitValueRequestRate, Name};
pub use limit_value_topic_count_all_of::LimitValueTopicCountAllOf;
pub use managed_tenant::ManagedTenant;
pub use path_spec::PathSpec;
pub use third_party_bucket_concession::ThirdPartyBucketConcession;
pub use volume::Volume;
pub use zone::{Network, Zone};
