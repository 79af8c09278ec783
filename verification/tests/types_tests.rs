use dsh_clients::types::defaults::{
    default_bool, default_u64, health_check_path, managed_tenant_services, metrics_path,
};
use dsh_clients::types::{
    AllocationStatus, AllocationStatus1, Certificate, ChildList, ConversionError, HealthCheck,
    HealthCheckProtocol, ManagedTenantServicesName, Notification, Topic, TopicStatus,
};
use std::collections::HashMap;

fn status() -> AllocationStatus {
    let mut args = HashMap::new();
    args.insert("key".to_string(), "args".to_string());
    AllocationStatus {
        derived_from: Some("parent".to_string()),
        notifications: vec![Notification { args, message: "message".to_string(), remove: true }],
        provisioned: true,
    }
}

#[test]
fn defaults_of_fields() {
    assert!(default_bool::<true>());
    assert!(!default_bool::<false>());
    assert_eq!(default_u64::<u64, 7070>(), 7070);
    assert_eq!(default_u64::<u64, 1>(), 1);
    assert_eq!(health_check_path(), "/");
    assert_eq!(metrics_path(), "/metrics");
}

#[test]
fn default_managed_tenant_services() {
    let services = managed_tenant_services();
    assert_eq!(services.len(), 3);
    assert_eq!(services[0].name, ManagedTenantServicesName::Monitoring);
    assert!(services[0].enabled);
    assert_eq!(services[1].name, ManagedTenantServicesName::Vpn);
    assert!(!services[1].enabled);
    assert_eq!(services[2].name, ManagedTenantServicesName::Tracing);
    assert!(!services[2].enabled);
}

#[test]
fn conversion_error_texts() {
    assert_eq!(ConversionError::from("invalid value").message(), "invalid value");
    assert_eq!(ConversionError::from("owned".to_string()).message(), "owned");
}

#[test]
fn copies_keep_content() {
    let c = Certificate {
        cert_chain_secret: "chain".to_string(),
        key_secret: "key".to_string(),
        passphrase_secret: Some("pass".to_string()),
    };
    let d = Certificate::from(&c);
    assert_eq!(d.cert_chain_secret, "chain");
    assert_eq!(d.key_secret, "key");
    assert_eq!(d.passphrase_secret.as_deref(), Some("pass"));
    let s = status();
    let t = AllocationStatus::from(&s);
    assert_eq!(t.derived_from.as_deref(), Some("parent"));
    assert_eq!(t.notifications.len(), 1);
    assert_eq!(t.notifications[0].args.get("key").map(|v| v.as_str()), Some("args"));
    assert!(t.provisioned);
    let mut props = HashMap::new();
    props.insert("retention.ms".to_string(), "1000".to_string());
    let ts = TopicStatus {
        actual: None,
        configuration: Some(Topic { kafka_properties: props, partitions: 3, replication_factor: 2 }),
        status: status(),
    };
    let copy = TopicStatus::from(&ts);
    let topic = copy.configuration.unwrap();
    assert_eq!(topic.partitions, 3);
    assert_eq!(topic.kafka_properties.get("retention.ms").map(|v| v.as_str()), Some("1000"));
    assert!(copy.actual.is_none());
}

#[test]
fn wrappers_convert_both_ways() {
    let one = AllocationStatus1::from(status());
    assert!(one.provisioned);
    let back: AllocationStatus = one.into();
    assert_eq!(back.derived_from.as_deref(), Some("parent"));
    let list = ChildList::from(vec!["a".to_string(), "b".to_string()]);
    assert_eq!(list.len(), 2);
    let copy = ChildList::from(&list);
    let names: Vec<String> = copy.into();
    assert_eq!(names, vec!["a".to_string(), "b".to_string()]);
}

#[test]
fn health_check_copy() {
    let h = HealthCheck { path: "/".to_string(), port: 7070, protocol: Some(HealthCheckProtocol::Https) };
    let c = HealthCheck::from(&h);
    assert_eq!(c.port, 7070);
    assert_eq!(c.protocol, Some(HealthCheckProtocol::Https));
}
