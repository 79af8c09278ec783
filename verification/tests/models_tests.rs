use dsh_clients::models::{
    ActualCertificateAllOf, ApplicationSecret, BucketAccessStatus, Certificate, LimitValueRequestRate,
    LimitValueTopicCountAllOf, ManagedTenant, Name, Network, PathSpec, ThirdPartyBucketConcession,
    Volume, Zone,
};
use dsh_clients::types::AllocationStatus;
use std::collections::HashMap;

#[test]
fn model_constructors() {
    let c = Certificate::new("key".to_string(), "chain".to_string());
    assert_eq!(c.key_secret, "key");
    assert_eq!(c.cert_chain_secret, "chain");
    assert!(c.passphrase_secret.is_none());
    let t = ManagedTenant::new("tenant".to_string(), "manager".to_string());
    assert_eq!(t.name, "tenant");
    assert_eq!(t.manager, "manager");
    assert!(t.services.is_none());
    assert_eq!(PathSpec::new("/api".to_string()).prefix, "/api");
    assert_eq!(Volume::new(10).size_gi_b, 10);
    assert_eq!(LimitValueTopicCountAllOf::new(5).value, 5);
    let r = LimitValueRequestRate::new(Name::RequestRate, 80);
    assert_eq!(r.name, Name::RequestRate);
    assert_eq!(r.value, 80);
    assert_eq!(Zone::new(Network::Public).network, Network::Public);
    let b = ThirdPartyBucketConcession::new(
        "bucket".to_string(),
        true,
        false,
        "idref".to_string(),
        "secretref".to_string(),
        "share".to_string(),
    );
    assert!(b.readable && !b.writable);
    assert_eq!(b.shareidentifier, "share");
    let mut inj = HashMap::new();
    inj.insert("env".to_string(), "VAR".to_string());
    let s = ApplicationSecret::new("secret".to_string(), vec![inj]);
    assert_eq!(s.name, "secret");
    assert_eq!(s.injections.len(), 1);
    let a = ActualCertificateAllOf::new(
        "01".to_string(),
        "2020".to_string(),
        "2030".to_string(),
        "CN=x".to_string(),
        vec!["x.example".to_string()],
    );
    assert_eq!(a.dns_names, vec!["x.example".to_string()]);
}

#[test]
fn model_defaults() {
    assert_eq!(Name::default(), Name::Cpu);
    assert_eq!(Network::default(), Network::Internal);
    assert_eq!(Zone::default().network, Network::Internal);
    assert_eq!(LimitValueRequestRate::default().name, Name::Cpu);
}

#[test]
fn bucket_access_status_from_status() {
    let s = BucketAccessStatus::new(AllocationStatus {
        derived_from: None,
        notifications: vec![],
        provisioned: false,
    });
    assert!(s.configuration.is_none());
    assert!(s.actual.is_none());
    assert!(!s.status.provisioned);
}
