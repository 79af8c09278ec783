use std::convert::TryFrom;
use dsh_clients::types::{BaseLimitValueName, GetManageByManagerTenantByTenantLimitByKindKind, HealthCheckProtocol, KafkaProxyValidationSubjectType, KafkaProxyZone, LimitValueCertificateCountName, LimitValueConsumerRateName, LimitValueCpuName, LimitValueMemName, LimitValuePartitionCountName, LimitValueProducerRateName, LimitValueRequestRateName, LimitValueSecretCountName, LimitValueTopicCountName, ManagedTenantServicesName, PortMappingTls, PutManageByManagerTenantByTenantLimitByKindKind, TaskState, ZoneNetwork};

#[test]
fn base_limit_value_name_wire_names() {
    assert_eq!(BaseLimitValueName::Cpu.to_string(), "cpu");
    assert_eq!(BaseLimitValueName::from_str("cpu").unwrap(), BaseLimitValueName::Cpu);
    assert_eq!(BaseLimitValueName::Mem.to_string(), "mem");
    assert_eq!(BaseLimitValueName::from_str("mem").unwrap(), BaseLimitValueName::Mem);
    assert_eq!(BaseLimitValueName::CertificateCount.to_string(), "certificateCount");
    assert_eq!(BaseLimitValueName::from_str("certificateCount").unwrap(), BaseLimitValueName::CertificateCount);
    assert_eq!(BaseLimitValueName::SecretCount.to_string(), "secretCount");
    assert_eq!(BaseLimitValueName::from_str("secretCount").unwrap(), BaseLimitValueName::SecretCount);
    assert_eq!(BaseLimitValueName::TopicCount.to_string(), "topicCount");
    assert_eq!(BaseLimitValueName::from_str("topicCount").unwrap(), BaseLimitValueName::TopicCount);
    assert_eq!(BaseLimitValueName::PartitionCount.to_string(), "partitionCount");
    assert_eq!(BaseLimitValueName::from_str("partitionCount").unwrap(), BaseLimitValueName::PartitionCount);
    assert_eq!(BaseLimitValueName::ConsumerRate.to_string(), "consumerRate");
    assert_eq!(BaseLimitValueName::from_str("consumerRate").unwrap(), BaseLimitValueName::ConsumerRate);
    assert_eq!(BaseLimitValueName::ProducerRate.to_string(), "producerRate");
    assert_eq!(BaseLimitValueName::from_str("producerRate").unwrap(), BaseLimitValueName::ProducerRate);
    assert_eq!(BaseLimitValueName::RequestRate.to_string(), "requestRate");
    assert_eq!(BaseLimitValueName::from_str("requestRate").unwrap(), BaseLimitValueName::RequestRate);
    assert_eq!(BaseLimitValueName::try_from("cpu").unwrap(), BaseLimitValueName::Cpu);
    assert_eq!(BaseLimitValueName::try_from(&"cpu".to_string()).unwrap(), BaseLimitValueName::Cpu);
    assert_eq!(BaseLimitValueName::try_from("cpu".to_string()).unwrap(), BaseLimitValueName::Cpu);
    assert_eq!("cpu".parse::<BaseLimitValueName>().unwrap(), BaseLimitValueName::Cpu);
    assert_eq!(BaseLimitValueName::from(&BaseLimitValueName::Cpu), BaseLimitValueName::Cpu);
}

#[test]
fn base_limit_value_name_refuses_other_text() {
    let e = BaseLimitValueName::from_str("CPU").unwrap_err();
    assert_eq!(e.message(), "invalid value");
    assert!(BaseLimitValueName::from_str("").is_err());
    assert!(BaseLimitValueName::try_from(" cpu").is_err());
}

#[test]
fn get_manage_by_manager_tenant_by_tenant_limit_by_kind_kind_wire_names() {
    assert_eq!(GetManageByManagerTenantByTenantLimitByKindKind::Cpu.to_string(), "cpu");
    assert_eq!(GetManageByManagerTenantByTenantLimitByKindKind::from_str("cpu").unwrap(), GetManageByManagerTenantByTenantLimitByKindKind::Cpu);
    assert_eq!(GetManageByManagerTenantByTenantLimitByKindKind::Mem.to_string(), "mem");
    assert_eq!(GetManageByManagerTenantByTenantLimitByKindKind::from_str("mem").unwrap(), GetManageByManagerTenantByTenantLimitByKindKind::Mem);
    assert_eq!(GetManageByManagerTenantByTenantLimitByKindKind::Certificatecount.to_string(), "certificatecount");
    assert_eq!(GetManageByManagerTenantByTenantLimitByKindKind::from_str("certificatecount").unwrap(), GetManageByManagerTenantByTenantLimitByKindKind::Certificatecount);
    assert_eq!(GetManageByManagerTenantByTenantLimitByKindKind::Secretcount.to_string(), "secretcount");
    assert_eq!(GetManageByManagerTenantByTenantLimitByKindKind::from_str("secretcount").unwrap(), GetManageByManagerTenantByTenantLimitByKindKind::Secretcount);
    assert_eq!(GetManageByManagerTenantByTenantLimitByKindKind::Topiccount.to_string(), "topiccount");
    assert_eq!(GetManageByManagerTenantByTenantLimitByKindKind::from_str("topiccount").unwrap(), GetManageByManagerTenantByTenantLimitByKindKind::Topiccount);
    assert_eq!(GetManageByManagerTenantByTenantLimitByKindKind::Partitioncount.to_string(), "partitioncount");
    assert_eq!(GetManageByManagerTenantByTenantLimitByKindKind::from_str("partitioncount").unwrap(), GetManageByManagerTenantByTenantLimitByKindKind::Partitioncount);
    assert_eq!(GetManageByManagerTenantByTenantLimitByKindKind::Consumerrate.to_string(), "consumerrate");
    assert_eq!(GetManageByManagerTenantByTenantLimitByKindKind::from_str("consumerrate").unwrap(), GetManageByManagerTenantByTenantLimitByKindKind::Consumerrate);
    assert_eq!(GetManageByManagerTenantByTenantLimitByKindKind::Producerrate.to_string(), "producerrate");
    assert_eq!(GetManageByManagerTenantByTenantLimitByKindKind::from_str("producerrate").unwrap(), GetManageByManagerTenantByTenantLimitByKindKind::Producerrate);
    assert_eq!(GetManageByManagerTenantByTenantLimitByKindKind::Requestrate.to_string(), "requestrate");
    assert_eq!(GetManageByManagerTenantByTenantLimitByKindKind::from_str("requestrate").unwrap(), GetManageByManagerTenantByTenantLimitByKindKind::Requestrate);
    assert_eq!(GetManageByManagerTenantByTenantLimitByKindKind::try_from("cpu").unwrap(), GetManageByManagerTenantByTenantLimitByKindKind::Cpu);
    assert_eq!(GetManageByManagerTenantByTenantLimitByKindKind::try_from(&"cpu".to_string()).unwrap(), GetManageByManagerTenantByTenantLimitByKindKind::Cpu);
    assert_eq!(GetManageByManagerTenantByTenantLimitByKindKind::try_from("cpu".to_string()).unwrap(), GetManageByManagerTenantByTenantLimitByKindKind::Cpu);
    assert_eq!("cpu".parse::<GetManageByManagerTenantByTenantLimitByKindKind>().unwrap(), GetManageByManagerTenantByTenantLimitByKindKind::Cpu);
    assert_eq!(GetManageByManagerTenantByTenantLimitByKindKind::from(&GetManageByManagerTenantByTenantLimitByKindKind::Cpu), GetManageByManagerTenantByTenantLimitByKindKind::Cpu);
}

#[test]
fn get_manage_by_manager_tenant_by_tenant_limit_by_kind_kind_refuses_other_text() {
    let e = GetManageByManagerTenantByTenantLimitByKindKind::from_str("CPU").unwrap_err();
    assert_eq!(e.message(), "invalid value");
    assert!(GetManageByManagerTenantByTenantLimitByKindKind::from_str("").is_err());
    assert!(GetManageByManagerTenantByTenantLimitByKindKind::try_from(" cpu").is_err());
}

#[test]
fn health_check_protocol_wire_names() {
    assert_eq!(HealthCheckProtocol::Http.to_string(), "http");
    assert_eq!(HealthCheckProtocol::from_str("http").unwrap(), HealthCheckProtocol::Http);
    assert_eq!(HealthCheckProtocol::Https.to_string(), "https");
    assert_eq!(HealthCheckProtocol::from_str("https").unwrap(), HealthCheckProtocol::Https);
    assert_eq!(HealthCheckProtocol::try_from("http").unwrap(), HealthCheckProtocol::Http);
    assert_eq!(HealthCheckProtocol::try_from(&"http".to_string()).unwrap(), HealthCheckProtocol::Http);
    assert_eq!(HealthCheckProtocol::try_from("http".to_string()).unwrap(), HealthCheckProtocol::Http);
    assert_eq!("http".parse::<HealthCheckProtocol>().unwrap(), HealthCheckProtocol::Http);
    assert_eq!(HealthCheckProtocol::from(&HealthCheckProtocol::Http), HealthCheckProtocol::Http);
}

#[test]
fn health_check_protocol_refuses_other_text() {
    let e = HealthCheckProtocol::from_str("HTTP").unwrap_err();
    assert_eq!(e.message(), "invalid value");
    assert!(HealthCheckProtocol::from_str("").is_err());
    assert!(HealthCheckProtocol::try_from(" http").is_err());
}

#[test]
fn kafka_proxy_validation_subject_type_wire_names() {
    assert_eq!(KafkaProxyValidationSubjectType::Exact.to_string(), "EXACT");
    assert_eq!(KafkaProxyValidationSubjectType::from_str("EXACT").unwrap(), KafkaProxyValidationSubjectType::Exact);
    assert_eq!(KafkaProxyValidationSubjectType::Pattern.to_string(), "PATTERN");
    assert_eq!(KafkaProxyValidationSubjectType::from_str("PATTERN").unwrap(), KafkaProxyValidationSubjectType::Pattern);
    assert_eq!(KafkaProxyValidationSubjectType::try_from("EXACT").unwrap(), KafkaProxyValidationSubjectType::Exact);
    assert_eq!(KafkaProxyValidationSubjectType::try_from(&"EXACT".to_string()).unwrap(), KafkaProxyValidationSubjectType::Exact);
    assert_eq!(KafkaProxyValidationSubjectType::try_from("EXACT".to_string()).unwrap(), KafkaProxyValidationSubjectType::Exact);
    assert_eq!("EXACT".parse::<KafkaProxyValidationSubjectType>().unwrap(), KafkaProxyValidationSubjectType::Exact);
    assert_eq!(KafkaProxyValidationSubjectType::from(&KafkaProxyValidationSubjectType::Exact), KafkaProxyValidationSubjectType::Exact);
}

#[test]
fn kafka_proxy_validation_subject_type_refuses_other_text() {
    let e = KafkaProxyValidationSubjectType::from_str("exact").unwrap_err();
    assert_eq!(e.message(), "invalid value");
    assert!(KafkaProxyValidationSubjectType::from_str("").is_err());
    assert!(KafkaProxyValidationSubjectType::try_from(" EXACT").is_err());
}

#[test]
fn kafka_proxy_zone_wire_names() {
    assert_eq!(KafkaProxyZone::Internal.to_string(), "internal");
    assert_eq!(KafkaProxyZone::from_str("internal").unwrap(), KafkaProxyZone::Internal);
    assert_eq!(KafkaProxyZone::Public.to_string(), "public");
    assert_eq!(KafkaProxyZone::from_str("public").unwrap(), KafkaProxyZone::Public);
    assert_eq!(KafkaProxyZone::try_from("internal").unwrap(), KafkaProxyZone::Internal);
    assert_eq!(KafkaProxyZone::try_from(&"internal".to_string()).unwrap(), KafkaProxyZone::Internal);
    assert_eq!(KafkaProxyZone::try_from("internal".to_string()).unwrap(), KafkaProxyZone::Internal);
    assert_eq!("internal".parse::<KafkaProxyZone>().unwrap(), KafkaProxyZone::Internal);
    assert_eq!(KafkaProxyZone::from(&KafkaProxyZone::Internal), KafkaProxyZone::Internal);
}

#[test]
fn kafka_proxy_zone_refuses_other_text() {
    let e = KafkaProxyZone::from_str("INTERNAL").unwrap_err();
    assert_eq!(e.message(), "invalid value");
    assert!(KafkaProxyZone::from_str("").is_err());
    assert!(KafkaProxyZone::try_from(" internal").is_err());
}

#[test]
fn limit_value_certificate_count_name_wire_names() {
    assert_eq!(LimitValueCertificateCountName::Cpu.to_string(), "cpu");
    assert_eq!(LimitValueCertificateCountName::from_str("cpu").unwrap(), LimitValueCertificateCountName::Cpu);
    assert_eq!(LimitValueCertificateCountName::Mem.to_string(), "mem");
    assert_eq!(LimitValueCertificateCountName::from_str("mem").unwrap(), LimitValueCertificateCountName::Mem);
    assert_eq!(LimitValueCertificateCountName::CertificateCount.to_string(), "certificateCount");
    assert_eq!(LimitValueCertificateCountName::from_str("certificateCount").unwrap(), LimitValueCertificateCountName::CertificateCount);
    assert_eq!(LimitValueCertificateCountName::SecretCount.to_string(), "secretCount");
    assert_eq!(LimitValueCertificateCountName::from_str("secretCount").unwrap(), LimitValueCertificateCountName::SecretCount);
    assert_eq!(LimitValueCertificateCountName::TopicCount.to_string(), "topicCount");
    assert_eq!(LimitValueCertificateCountName::from_str("topicCount").unwrap(), LimitValueCertificateCountName::TopicCount);
    assert_eq!(LimitValueCertificateCountName::PartitionCount.to_string(), "partitionCount");
    assert_eq!(LimitValueCertificateCountName::from_str("partitionCount").unwrap(), LimitValueCertificateCountName::PartitionCount);
    assert_eq!(LimitValueCertificateCountName::ConsumerRate.to_string(), "consumerRate");
    assert_eq!(LimitValueCertificateCountName::from_str("consumerRate").unwrap(), LimitValueCertificateCountName::ConsumerRate);
    assert_eq!(LimitValueCertificateCountName::ProducerRate.to_string(), "producerRate");
    assert_eq!(LimitValueCertificateCountName::from_str("producerRate").unwrap(), LimitValueCertificateCountName::ProducerRate);
    assert_eq!(LimitValueCertificateCountName::RequestRate.to_string(), "requestRate");
    assert_eq!(LimitValueCertificateCountName::from_str("requestRate").unwrap(), LimitValueCertificateCountName::RequestRate);
    assert_eq!(LimitValueCertificateCountName::try_from("cpu").unwrap(), LimitValueCertificateCountName::Cpu);
    assert_eq!(LimitValueCertificateCountName::try_from(&"cpu".to_string()).unwrap(), LimitValueCertificateCountName::Cpu);
    assert_eq!(LimitValueCertificateCountName::try_from("cpu".to_string()).unwrap(), LimitValueCertificateCountName::Cpu);
    assert_eq!("cpu".parse::<LimitValueCertificateCountName>().unwrap(), LimitValueCertificateCountName::Cpu);
    assert_eq!(LimitValueCertificateCountName::from(&LimitValueCertificateCountName::Cpu), LimitValueCertificateCountName::Cpu);
}

#[test]
fn limit_value_certificate_count_name_refuses_other_text() {
    let e = LimitValueCertificateCountName::from_str("CPU").unwrap_err();
    assert_eq!(e.message(), "invalid value");
    assert!(LimitValueCertificateCountName::from_str("").is_err());
    assert!(LimitValueCertificateCountName::try_from(" cpu").is_err());
}

#[test]
fn limit_value_consumer_rate_name_wire_names() {
    assert_eq!(LimitValueConsumerRateName::Cpu.to_string(), "cpu");
    assert_eq!(LimitValueConsumerRateName::from_str("cpu").unwrap(), LimitValueConsumerRateName::Cpu);
    assert_eq!(LimitValueConsumerRateName::Mem.to_string(), "mem");
    assert_eq!(LimitValueConsumerRateName::from_str("mem").unwrap(), LimitValueConsumerRateName::Mem);
    assert_eq!(LimitValueConsumerRateName::CertificateCount.to_string(), "certificateCount");
    assert_eq!(LimitValueConsumerRateName::from_str("certificateCount").unwrap(), LimitValueConsumerRateName::CertificateCount);
    assert_eq!(LimitValueConsumerRateName::SecretCount.to_string(), "secretCount");
    assert_eq!(LimitValueConsumerRateName::from_str("secretCount").unwrap(), LimitValueConsumerRateName::SecretCount);
    assert_eq!(LimitValueConsumerRateName::TopicCount.to_string(), "topicCount");
    assert_eq!(LimitValueConsumerRateName::from_str("topicCount").unwrap(), LimitValueConsumerRateName::TopicCount);
    assert_eq!(LimitValueConsumerRateName::PartitionCount.to_string(), "partitionCount");
    assert_eq!(LimitValueConsumerRateName::from_str("partitionCount").unwrap(), LimitValueConsumerRateName::PartitionCount);
    assert_eq!(LimitValueConsumerRateName::ConsumerRate.to_string(), "consumerRate");
    assert_eq!(LimitValueConsumerRateName::from_str("consumerRate").unwrap(), LimitValueConsumerRateName::ConsumerRate);
    assert_eq!(LimitValueConsumerRateName::ProducerRate.to_string(), "producerRate");
    assert_eq!(LimitValueConsumerRateName::from_str("producerRate").unwrap(), LimitValueConsumerRateName::ProducerRate);
    assert_eq!(LimitValueConsumerRateName::RequestRate.to_string(), "requestRate");
    assert_eq!(LimitValueConsumerRateName::from_str("requestRate").unwrap(), LimitValueConsumerRateName::RequestRate);
    assert_eq!(LimitValueConsumerRateName::try_from("cpu").unwrap(), LimitValueConsumerRateName::Cpu);
    assert_eq!(LimitValueConsumerRateName::try_from(&"cpu".to_string()).unwrap(), LimitValueConsumerRateName::Cpu);
    assert_eq!(LimitValueConsumerRateName::try_from("cpu".to_string()).unwrap(), LimitValueConsumerRateName::Cpu);
    assert_eq!("cpu".parse::<LimitValueConsumerRateName>().unwrap(), LimitValueConsumerRateName::Cpu);
    assert_eq!(LimitValueConsumerRateName::from(&LimitValueConsumerRateName::Cpu), LimitValueConsumerRateName::Cpu);
}

#[test]
fn limit_value_consumer_rate_name_refuses_other_text() {
    let e = LimitValueConsumerRateName::from_str("CPU").unwrap_err();
    assert_eq!(e.message(), "invalid value");
    assert!(LimitValueConsumerRateName::from_str("").is_err());
    assert!(LimitValueConsumerRateName::try_from(" cpu").is_err());
}

#[test]
fn limit_value_cpu_name_wire_names() {
    assert_eq!(LimitValueCpuName::Cpu.to_string(), "cpu");
    assert_eq!(LimitValueCpuName::from_str("cpu").unwrap(), LimitValueCpuName::Cpu);
    assert_eq!(LimitValueCpuName::Mem.to_string(), "mem");
    assert_eq!(LimitValueCpuName::from_str("mem").unwrap(), LimitValueCpuName::Mem);
    assert_eq!(LimitValueCpuName::CertificateCount.to_string(), "certificateCount");
    assert_eq!(LimitValueCpuName::from_str("certificateCount").unwrap(), LimitValueCpuName::CertificateCount);
    assert_eq!(LimitValueCpuName::SecretCount.to_string(), "secretCount");
    assert_eq!(LimitValueCpuName::from_str("secretCount").unwrap(), LimitValueCpuName::SecretCount);
    assert_eq!(LimitValueCpuName::TopicCount.to_string(), "topicCount");
    assert_eq!(LimitValueCpuName::from_str("topicCount").unwrap(), LimitValueCpuName::TopicCount);
    assert_eq!(LimitValueCpuName::PartitionCount.to_string(), "partitionCount");
    assert_eq!(LimitValueCpuName::from_str("partitionCount").unwrap(), LimitValueCpuName::PartitionCount);
    assert_eq!(LimitValueCpuName::ConsumerRate.to_string(), "consumerRate");
    assert_eq!(LimitValueCpuName::from_str("consumerRate").unwrap(), LimitValueCpuName::ConsumerRate);
    assert_eq!(LimitValueCpuName::ProducerRate.to_string(), "producerRate");
    assert_eq!(LimitValueCpuName::from_str("producerRate").unwrap(), LimitValueCpuName::ProducerRate);
    assert_eq!(LimitValueCpuName::RequestRate.to_string(), "requestRate");
    assert_eq!(LimitValueCpuName::from_str("requestRate").unwrap(), LimitValueCpuName::RequestRate);
    assert_eq!(LimitValueCpuName::try_from("cpu").unwrap(), LimitValueCpuName::Cpu);
    assert_eq!(LimitValueCpuName::try_from(&"cpu".to_string()).unwrap(), LimitValueCpuName::Cpu);
    assert_eq!(LimitValueCpuName::try_from("cpu".to_string()).unwrap(), LimitValueCpuName::Cpu);
    assert_eq!("cpu".parse::<LimitValueCpuName>().unwrap(), LimitValueCpuName::Cpu);
    assert_eq!(LimitValueCpuName::from(&LimitValueCpuName::Cpu), LimitValueCpuName::Cpu);
}

#[test]
fn limit_value_cpu_name_refuses_other_text() {
    let e = LimitValueCpuName::from_str("CPU").unwrap_err();
    assert_eq!(e.message(), "invalid value");
    assert!(LimitValueCpuName::from_str("").is_err());
    assert!(LimitValueCpuName::try_from(" cpu").is_err());
}

#[test]
fn limit_value_mem_name_wire_names() {
    assert_eq!(LimitValueMemName::Cpu.to_string(), "cpu");
    assert_eq!(LimitValueMemName::from_str("cpu").unwrap(), LimitValueMemName::Cpu);
    assert_eq!(LimitValueMemName::Mem.to_string(), "mem");
    assert_eq!(LimitValueMemName::from_str("mem").unwrap(), LimitValueMemName::Mem);
    assert_eq!(LimitValueMemName::CertificateCount.to_string(), "certificateCount");
    assert_eq!(LimitValueMemName::from_str("certificateCount").unwrap(), LimitValueMemName::CertificateCount);
    assert_eq!(LimitValueMemName::SecretCount.to_string(), "secretCount");
    assert_eq!(LimitValueMemName::from_str("secretCount").unwrap(), LimitValueMemName::SecretCount);
    assert_eq!(LimitValueMemName::TopicCount.to_string(), "topicCount");
    assert_eq!(LimitValueMemName::from_str("topicCount").unwrap(), LimitValueMemName::TopicCount);
    assert_eq!(LimitValueMemName::PartitionCount.to_string(), "partitionCount");
    assert_eq!(LimitValueMemName::from_str("partitionCount").unwrap(), LimitValueMemName::PartitionCount);
    assert_eq!(LimitValueMemName::ConsumerRate.to_string(), "consumerRate");
    assert_eq!(LimitValueMemName::from_str("consumerRate").unwrap(), LimitValueMemName::ConsumerRate);
    assert_eq!(LimitValueMemName::ProducerRate.to_string(), "producerRate");
    assert_eq!(LimitValueMemName::from_str("producerRate").unwrap(), LimitValueMemName::ProducerRate);
    assert_eq!(LimitValueMemName::RequestRate.to_string(), "requestRate");
    assert_eq!(LimitValueMemName::from_str("requestRate").unwrap(), LimitValueMemName::RequestRate);
    assert_eq!(LimitValueMemName::try_from("cpu").unwrap(), LimitValueMemName::Cpu);
    assert_eq!(LimitValueMemName::try_from(&"cpu".to_string()).unwrap(), LimitValueMemName::Cpu);
    assert_eq!(LimitValueMemName::try_from("cpu".to_string()).unwrap(), LimitValueMemName::Cpu);
    assert_eq!("cpu".parse::<LimitValueMemName>().unwrap(), LimitValueMemName::Cpu);
    assert_eq!(LimitValueMemName::from(&LimitValueMemName::Cpu), LimitValueMemName::Cpu);
}

#[test]
fn limit_value_mem_name_refuses_other_text() {
    let e = LimitValueMemName::from_str("CPU").unwrap_err();
    assert_eq!(e.message(), "invalid value");
    assert!(LimitValueMemName::from_str("").is_err());
    assert!(LimitValueMemName::try_from(" cpu").is_err());
}

#[test]
fn limit_value_partition_count_name_wire_names() {
    assert_eq!(LimitValuePartitionCountName::Cpu.to_string(), "cpu");
    assert_eq!(LimitValuePartitionCountName::from_str("cpu").unwrap(), LimitValuePartitionCountName::Cpu);
    assert_eq!(LimitValuePartitionCountName::Mem.to_string(), "mem");
    assert_eq!(LimitValuePartitionCountName::from_str("mem").unwrap(), LimitValuePartitionCountName::Mem);
    assert_eq!(LimitValuePartitionCountName::CertificateCount.to_string(), "certificateCount");
    assert_eq!(LimitValuePartitionCountName::from_str("certificateCount").unwrap(), LimitValuePartitionCountName::CertificateCount);
    assert_eq!(LimitValuePartitionCountName::SecretCount.to_string(), "secretCount");
    assert_eq!(LimitValuePartitionCountName::from_str("secretCount").unwrap(), LimitValuePartitionCountName::SecretCount);
    assert_eq!(LimitValuePartitionCountName::TopicCount.to_string(), "topicCount");
    assert_eq!(LimitValuePartitionCountName::from_str("topicCount").unwrap(), LimitValuePartitionCountName::TopicCount);
    assert_eq!(LimitValuePartitionCountName::PartitionCount.to_string(), "partitionCount");
    assert_eq!(LimitValuePartitionCountName::from_str("partitionCount").unwrap(), LimitValuePartitionCountName::PartitionCount);
    assert_eq!(LimitValuePartitionCountName::ConsumerRate.to_string(), "consumerRate");
    assert_eq!(LimitValuePartitionCountName::from_str("consumerRate").unwrap(), LimitValuePartitionCountName::ConsumerRate);
    assert_eq!(LimitValuePartitionCountName::ProducerRate.to_string(), "producerRate");
    assert_eq!(LimitValuePartitionCountName::from_str("producerRate").unwrap(), LimitValuePartitionCountName::ProducerRate);
    assert_eq!(LimitValuePartitionCountName::RequestRate.to_string(), "requestRate");
    assert_eq!(LimitValuePartitionCountName::from_str("requestRate").unwrap(), LimitValuePartitionCountName::RequestRate);
    assert_eq!(LimitValuePartitionCountName::try_from("cpu").unwrap(), LimitValuePartitionCountName::Cpu);
    assert_eq!(LimitValuePartitionCountName::try_from(&"cpu".to_string()).unwrap(), LimitValuePartitionCountName::Cpu);
    assert_eq!(LimitValuePartitionCountName::try_from("cpu".to_string()).unwrap(), LimitValuePartitionCountName::Cpu);
    assert_eq!("cpu".parse::<LimitValuePartitionCountName>().unwrap(), LimitValuePartitionCountName::Cpu);
    assert_eq!(LimitValuePartitionCountName::from(&LimitValuePartitionCountName::Cpu), LimitValuePartitionCountName::Cpu);
}

#[test]
fn limit_value_partition_count_name_refuses_other_text() {
    let e = LimitValuePartitionCountName::from_str("CPU").unwrap_err();
    assert_eq!(e.message(), "invalid value");
    assert!(LimitValuePartitionCountName::from_str("").is_err());
    assert!(LimitValuePartitionCountName::try_from(" cpu").is_err());
}

#[test]
fn limit_value_producer_rate_name_wire_names() {
    assert_eq!(LimitValueProducerRateName::Cpu.to_string(), "cpu");
    assert_eq!(LimitValueProducerRateName::from_str("cpu").unwrap(), LimitValueProducerRateName::Cpu);
    assert_eq!(LimitValueProducerRateName::Mem.to_string(), "mem");
    assert_eq!(LimitValueProducerRateName::from_str("mem").unwrap(), LimitValueProducerRateName::Mem);
    assert_eq!(LimitValueProducerRateName::CertificateCount.to_string(), "certificateCount");
    assert_eq!(LimitValueProducerRateName::from_str("certificateCount").unwrap(), LimitValueProducerRateName::CertificateCount);
    assert_eq!(LimitValueProducerRateName::SecretCount.to_string(), "secretCount");
    assert_eq!(LimitValueProducerRateName::from_str("secretCount").unwrap(), LimitValueProducerRateName::SecretCount);
    assert_eq!(LimitValueProducerRateName::TopicCount.to_string(), "topicCount");
    assert_eq!(LimitValueProducerRateName::from_str("topicCount").unwrap(), LimitValueProducerRateName::TopicCount);
    assert_eq!(LimitValueProducerRateName::PartitionCount.to_string(), "partitionCount");
    assert_eq!(LimitValueProducerRateName::from_str("partitionCount").unwrap(), LimitValueProducerRateName::PartitionCount);
    assert_eq!(LimitValueProducerRateName::ConsumerRate.to_string(), "consumerRate");
    assert_eq!(LimitValueProducerRateName::from_str("consumerRate").unwrap(), LimitValueProducerRateName::ConsumerRate);
    assert_eq!(LimitValueProducerRateName::ProducerRate.to_string(), "producerRate");
    assert_eq!(LimitValueProducerRateName::from_str("producerRate").unwrap(), LimitValueProducerRateName::ProducerRate);
    assert_eq!(LimitValueProducerRateName::RequestRate.to_string(), "requestRate");
    assert_eq!(LimitValueProducerRateName::from_str("requestRate").unwrap(), LimitValueProducerRateName::RequestRate);
    assert_eq!(LimitValueProducerRateName::try_from("cpu").unwrap(), LimitValueProducerRateName::Cpu);
    assert_eq!(LimitValueProducerRateName::try_from(&"cpu".to_string()).unwrap(), LimitValueProducerRateName::Cpu);
    assert_eq!(LimitValueProducerRateName::try_from("cpu".to_string()).unwrap(), LimitValueProducerRateName::Cpu);
    assert_eq!("cpu".parse::<LimitValueProducerRateName>().unwrap(), LimitValueProducerRateName::Cpu);
    assert_eq!(LimitValueProducerRateName::from(&LimitValueProducerRateName::Cpu), LimitValueProducerRateName::Cpu);
}

#[test]
fn limit_value_producer_rate_name_refuses_other_text() {
    let e = LimitValueProducerRateName::from_str("CPU").unwrap_err();
    assert_eq!(e.message(), "invalid value");
    assert!(LimitValueProducerRateName::from_str("").is_err());
    assert!(LimitValueProducerRateName::try_from(" cpu").is_err());
}

#[test]
fn limit_value_request_rate_name_wire_names() {
    assert_eq!(LimitValueRequestRateName::Cpu.to_string(), "cpu");
    assert_eq!(LimitValueRequestRateName::from_str("cpu").unwrap(), LimitValueRequestRateName::Cpu);
    assert_eq!(LimitValueRequestRateName::Mem.to_string(), "mem");
    assert_eq!(LimitValueRequestRateName::from_str("mem").unwrap(), LimitValueRequestRateName::Mem);
    assert_eq!(LimitValueRequestRateName::CertificateCount.to_string(), "certificateCount");
    assert_eq!(LimitValueRequestRateName::from_str("certificateCount").unwrap(), LimitValueRequestRateName::CertificateCount);
    assert_eq!(LimitValueRequestRateName::SecretCount.to_string(), "secretCount");
    assert_eq!(LimitValueRequestRateName::from_str("secretCount").unwrap(), LimitValueRequestRateName::SecretCount);
    assert_eq!(LimitValueRequestRateName::TopicCount.to_string(), "topicCount");
    assert_eq!(LimitValueRequestRateName::from_str("topicCount").unwrap(), LimitValueRequestRateName::TopicCount);
    assert_eq!(LimitValueRequestRateName::PartitionCount.to_string(), "partitionCount");
    assert_eq!(LimitValueRequestRateName::from_str("partitionCount").unwrap(), LimitValueRequestRateName::PartitionCount);
    assert_eq!(LimitValueRequestRateName::ConsumerRate.to_string(), "consumerRate");
    assert_eq!(LimitValueRequestRateName::from_str("consumerRate").unwrap(), LimitValueRequestRateName::ConsumerRate);
    assert_eq!(LimitValueRequestRateName::ProducerRate.to_string(), "producerRate");
    assert_eq!(LimitValueRequestRateName::from_str("producerRate").unwrap(), LimitValueRequestRateName::ProducerRate);
    assert_eq!(LimitValueRequestRateName::RequestRate.to_string(), "requestRate");
    assert_eq!(LimitValueRequestRateName::from_str("requestRate").unwrap(), LimitValueRequestRateName::RequestRate);
    assert_eq!(LimitValueRequestRateName::try_from("cpu").unwrap(), LimitValueRequestRateName::Cpu);
    assert_eq!(LimitValueRequestRateName::try_from(&"cpu".to_string()).unwrap(), LimitValueRequestRateName::Cpu);
    assert_eq!(LimitValueRequestRateName::try_from("cpu".to_string()).unwrap(), LimitValueRequestRateName::Cpu);
    assert_eq!("cpu".parse::<LimitValueRequestRateName>().unwrap(), LimitValueRequestRateName::Cpu);
    assert_eq!(LimitValueRequestRateName::from(&LimitValueRequestRateName::Cpu), LimitValueRequestRateName::Cpu);
}

#[test]
fn limit_value_request_rate_name_refuses_other_text() {
    let e = LimitValueRequestRateName::from_str("CPU").unwrap_err();
    assert_eq!(e.message(), "invalid value");
    assert!(LimitValueRequestRateName::from_str("").is_err());
    assert!(LimitValueRequestRateName::try_from(" cpu").is_err());
}

#[test]
fn limit_value_secret_count_name_wire_names() {
    assert_eq!(LimitValueSecretCountName::Cpu.to_string(), "cpu");
    assert_eq!(LimitValueSecretCountName::from_str("cpu").unwrap(), LimitValueSecretCountName::Cpu);
    assert_eq!(LimitValueSecretCountName::Mem.to_string(), "mem");
    assert_eq!(LimitValueSecretCountName::from_str("mem").unwrap(), LimitValueSecretCountName::Mem);
    assert_eq!(LimitValueSecretCountName::CertificateCount.to_string(), "certificateCount");
    assert_eq!(LimitValueSecretCountName::from_str("certificateCount").unwrap(), LimitValueSecretCountName::CertificateCount);
    assert_eq!(LimitValueSecretCountName::SecretCount.to_string(), "secretCount");
    assert_eq!(LimitValueSecretCountName::from_str("secretCount").unwrap(), LimitValueSecretCountName::SecretCount);
    assert_eq!(LimitValueSecretCountName::TopicCount.to_string(), "topicCount");
    assert_eq!(LimitValueSecretCountName::from_str("topicCount").unwrap(), LimitValueSecretCountName::TopicCount);
    assert_eq!(LimitValueSecretCountName::PartitionCount.to_string(), "partitionCount");
    assert_eq!(LimitValueSecretCountName::from_str("partitionCount").unwrap(), LimitValueSecretCountName::PartitionCount);
    assert_eq!(LimitValueSecretCountName::ConsumerRate.to_string(), "consumerRate");
    assert_eq!(LimitValueSecretCountName::from_str("consumerRate").unwrap(), LimitValueSecretCountName::ConsumerRate);
    assert_eq!(LimitValueSecretCountName::ProducerRate.to_string(), "producerRate");
    assert_eq!(LimitValueSecretCountName::from_str("producerRate").unwrap(), LimitValueSecretCountName::ProducerRate);
    assert_eq!(LimitValueSecretCountName::RequestRate.to_string(), "requestRate");
    assert_eq!(LimitValueSecretCountName::from_str("requestRate").unwrap(), LimitValueSecretCountName::RequestRate);
    assert_eq!(LimitValueSecretCountName::try_from("cpu").unwrap(), LimitValueSecretCountName::Cpu);
    assert_eq!(LimitValueSecretCountName::try_from(&"cpu".to_string()).unwrap(), LimitValueSecretCountName::Cpu);
    assert_eq!(LimitValueSecretCountName::try_from("cpu".to_string()).unwrap(), LimitValueSecretCountName::Cpu);
    assert_eq!("cpu".parse::<LimitValueSecretCountName>().unwrap(), LimitValueSecretCountName::Cpu);
    assert_eq!(LimitValueSecretCountName::from(&LimitValueSecretCountName::Cpu), LimitValueSecretCountName::Cpu);
}

#[test]
fn limit_value_secret_count_name_refuses_other_text() {
    let e = LimitValueSecretCountName::from_str("CPU").unwrap_err();
    assert_eq!(e.message(), "invalid value");
    assert!(LimitValueSecretCountName::from_str("").is_err());
    assert!(LimitValueSecretCountName::try_from(" cpu").is_err());
}

#[test]
fn limit_value_topic_count_name_wire_names() {
    assert_eq!(LimitValueTopicCountName::Cpu.to_string(), "cpu");
    assert_eq!(LimitValueTopicCountName::from_str("cpu").unwrap(), LimitValueTopicCountName::Cpu);
    assert_eq!(LimitValueTopicCountName::Mem.to_string(), "mem");
    assert_eq!(LimitValueTopicCountName::from_str("mem").unwrap(), LimitValueTopicCountName::Mem);
    assert_eq!(LimitValueTopicCountName::CertificateCount.to_string(), "certificateCount");
    assert_eq!(LimitValueTopicCountName::from_str("certificateCount").unwrap(), LimitValueTopicCountName::CertificateCount);
    assert_eq!(LimitValueTopicCountName::SecretCount.to_string(), "secretCount");
    assert_eq!(LimitValueTopicCountName::from_str("secretCount").unwrap(), LimitValueTopicCountName::SecretCount);
    assert_eq!(LimitValueTopicCountName::TopicCount.to_string(), "topicCount");
    assert_eq!(LimitValueTopicCountName::from_str("topicCount").unwrap(), LimitValueTopicCountName::TopicCount);
    assert_eq!(LimitValueTopicCountName::PartitionCount.to_string(), "partitionCount");
    assert_eq!(LimitValueTopicCountName::from_str("partitionCount").unwrap(), LimitValueTopicCountName::PartitionCount);
    assert_eq!(LimitValueTopicCountName::ConsumerRate.to_string(), "consumerRate");
    assert_eq!(LimitValueTopicCountName::from_str("consumerRate").unwrap(), LimitValueTopicCountName::ConsumerRate);
    assert_eq!(LimitValueTopicCountName::ProducerRate.to_string(), "producerRate");
    assert_eq!(LimitValueTopicCountName::from_str("producerRate").unwrap(), LimitValueTopicCountName::ProducerRate);
    assert_eq!(LimitValueTopicCountName::RequestRate.to_string(), "requestRate");
    assert_eq!(LimitValueTopicCountName::from_str("requestRate").unwrap(), LimitValueTopicCountName::RequestRate);
    assert_eq!(LimitValueTopicCountName::try_from("cpu").unwrap(), LimitValueTopicCountName::Cpu);
    assert_eq!(LimitValueTopicCountName::try_from(&"cpu".to_string()).unwrap(), LimitValueTopicCountName::Cpu);
    assert_eq!(LimitValueTopicCountName::try_from("cpu".to_string()).unwrap(), LimitValueTopicCountName::Cpu);
    assert_eq!("cpu".parse::<LimitValueTopicCountName>().unwrap(), LimitValueTopicCountName::Cpu);
    assert_eq!(LimitValueTopicCountName::from(&LimitValueTopicCountName::Cpu), LimitValueTopicCountName::Cpu);
}

#[test]
fn limit_value_topic_count_name_refuses_other_text() {
    let e = LimitValueTopicCountName::from_str("CPU").unwrap_err();
    assert_eq!(e.message(), "invalid value");
    assert!(LimitValueTopicCountName::from_str("").is_err());
    assert!(LimitValueTopicCountName::try_from(" cpu").is_err());
}

#[test]
fn managed_tenant_services_name_wire_names() {
    assert_eq!(ManagedTenantServicesName::Vpn.to_string(), "vpn");
    assert_eq!(ManagedTenantServicesName::from_str("vpn").unwrap(), ManagedTenantServicesName::Vpn);
    assert_eq!(ManagedTenantServicesName::Tracing.to_string(), "tracing");
    assert_eq!(ManagedTenantServicesName::from_str("tracing").unwrap(), ManagedTenantServicesName::Tracing);
    assert_eq!(ManagedTenantServicesName::Monitoring.to_string(), "monitoring");
    assert_eq!(ManagedTenantServicesName::from_str("monitoring").unwrap(), ManagedTenantServicesName::Monitoring);
    assert_eq!(ManagedTenantServicesName::try_from("vpn").unwrap(), ManagedTenantServicesName::Vpn);
    assert_eq!(ManagedTenantServicesName::try_from(&"vpn".to_string()).unwrap(), ManagedTenantServicesName::Vpn);
    assert_eq!(ManagedTenantServicesName::try_from("vpn".to_string()).unwrap(), ManagedTenantServicesName::Vpn);
    assert_eq!("vpn".parse::<ManagedTenantServicesName>().unwrap(), ManagedTenantServicesName::Vpn);
    assert_eq!(ManagedTenantServicesName::from(&ManagedTenantServicesName::Vpn), ManagedTenantServicesName::Vpn);
}

#[test]
fn managed_tenant_services_name_refuses_other_text() {
    let e = ManagedTenantServicesName::from_str("VPN").unwrap_err();
    assert_eq!(e.message(), "invalid value");
    assert!(ManagedTenantServicesName::from_str("").is_err());
    assert!(ManagedTenantServicesName::try_from(" vpn").is_err());
}

#[test]
fn port_mapping_tls_wire_names() {
    assert_eq!(PortMappingTls::Auto.to_string(), "auto");
    assert_eq!(PortMappingTls::from_str("auto").unwrap(), PortMappingTls::Auto);
    assert_eq!(PortMappingTls::NoTls.to_string(), "none");
    assert_eq!(PortMappingTls::from_str("none").unwrap(), PortMappingTls::NoTls);
    assert_eq!(PortMappingTls::try_from("auto").unwrap(), PortMappingTls::Auto);
    assert_eq!(PortMappingTls::try_from(&"auto".to_string()).unwrap(), PortMappingTls::Auto);
    assert_eq!(PortMappingTls::try_from("auto".to_string()).unwrap(), PortMappingTls::Auto);
    assert_eq!("auto".parse::<PortMappingTls>().unwrap(), PortMappingTls::Auto);
    assert_eq!(PortMappingTls::from(&PortMappingTls::Auto), PortMappingTls::Auto);
}

#[test]
fn port_mapping_tls_refuses_other_text() {
    let e = PortMappingTls::from_str("AUTO").unwrap_err();
    assert_eq!(e.message(), "invalid value");
    assert!(PortMappingTls::from_str("").is_err());
    assert!(PortMappingTls::try_from(" auto").is_err());
}

#[test]
fn put_manage_by_manager_tenant_by_tenant_limit_by_kind_kind_wire_names() {
    assert_eq!(PutManageByManagerTenantByTenantLimitByKindKind::Cpu.to_string(), "cpu");
    assert_eq!(PutManageByManagerTenantByTenantLimitByKindKind::from_str("cpu").unwrap(), PutManageByManagerTenantByTenantLimitByKindKind::Cpu);
    assert_eq!(PutManageByManagerTenantByTenantLimitByKindKind::Mem.to_string(), "mem");
    assert_eq!(PutManageByManagerTenantByTenantLimitByKindKind::from_str("mem").unwrap(), PutManageByManagerTenantByTenantLimitByKindKind::Mem);
    assert_eq!(PutManageByManagerTenantByTenantLimitByKindKind::Certificatecount.to_string(), "certificatecount");
    assert_eq!(PutManageByManagerTenantByTenantLimitByKindKind::from_str("certificatecount").unwrap(), PutManageByManagerTenantByTenantLimitByKindKind::Certificatecount);
    assert_eq!(PutManageByManagerTenantByTenantLimitByKindKind::Secretcount.to_string(), "secretcount");
    assert_eq!(PutManageByManagerTenantByTenantLimitByKindKind::from_str("secretcount").unwrap(), PutManageByManagerTenantByTenantLimitByKindKind::Secretcount);
    assert_eq!(PutManageByManagerTenantByTenantLimitByKindKind::Topiccount.to_string(), "topiccount");
    assert_eq!(PutManageByManagerTenantByTenantLimitByKindKind::from_str("topiccount").unwrap(), PutManageByManagerTenantByTenantLimitByKindKind::Topiccount);
    assert_eq!(PutManageByManagerTenantByTenantLimitByKindKind::Partitioncount.to_string(), "partitioncount");
    assert_eq!(PutManageByManagerTenantByTenantLimitByKindKind::from_str("partitioncount").unwrap(), PutManageByManagerTenantByTenantLimitByKindKind::Partitioncount);
    assert_eq!(PutManageByManagerTenantByTenantLimitByKindKind::Consumerrate.to_string(), "consumerrate");
    assert_eq!(PutManageByManagerTenantByTenantLimitByKindKind::from_str("consumerrate").unwrap(), PutManageByManagerTenantByTenantLimitByKindKind::Consumerrate);
    assert_eq!(PutManageByManagerTenantByTenantLimitByKindKind::Producerrate.to_string(), "producerrate");
    assert_eq!(PutManageByManagerTenantByTenantLimitByKindKind::from_str("producerrate").unwrap(), PutManageByManagerTenantByTenantLimitByKindKind::Producerrate);
    assert_eq!(PutManageByManagerTenantByTenantLimitByKindKind::Requestrate.to_string(), "requestrate");
    assert_eq!(PutManageByManagerTenantByTenantLimitByKindKind::from_str("requestrate").unwrap(), PutManageByManagerTenantByTenantLimitByKindKind::Requestrate);
    assert_eq!(PutManageByManagerTenantByTenantLimitByKindKind::try_from("cpu").unwrap(), PutManageByManagerTenantByTenantLimitByKindKind::Cpu);
    assert_eq!(PutManageByManagerTenantByTenantLimitByKindKind::try_from(&"cpu".to_string()).unwrap(), PutManageByManagerTenantByTenantLimitByKindKind::Cpu);
    assert_eq!(PutManageByManagerTenantByTenantLimitByKindKind::try_from("cpu".to_string()).unwrap(), PutManageByManagerTenantByTenantLimitByKindKind::Cpu);
    assert_eq!("cpu".parse::<PutManageByManagerTenantByTenantLimitByKindKind>().unwrap(), PutManageByManagerTenantByTenantLimitByKindKind::Cpu);
    assert_eq!(PutManageByManagerTenantByTenantLimitByKindKind::from(&PutManageByManagerTenantByTenantLimitByKindKind::Cpu), PutManageByManagerTenantByTenantLimitByKindKind::Cpu);
}

#[test]
fn put_manage_by_manager_tenant_by_tenant_limit_by_kind_kind_refuses_other_text() {
    let e = PutManageByManagerTenantByTenantLimitByKindKind::from_str("CPU").unwrap_err();
    assert_eq!(e.message(), "invalid value");
    assert!(PutManageByManagerTenantByTenantLimitByKindKind::from_str("").is_err());
    assert!(PutManageByManagerTenantByTenantLimitByKindKind::try_from(" cpu").is_err());
}

#[test]
fn task_state_wire_names() {
    assert_eq!(TaskState::Dropped.to_string(), "DROPPED");
    assert_eq!(TaskState::from_str("DROPPED").unwrap(), TaskState::Dropped);
    assert_eq!(TaskState::Error.to_string(), "ERROR");
    assert_eq!(TaskState::from_str("ERROR").unwrap(), TaskState::Error);
    assert_eq!(TaskState::Failed.to_string(), "FAILED");
    assert_eq!(TaskState::from_str("FAILED").unwrap(), TaskState::Failed);
    assert_eq!(TaskState::Finished.to_string(), "FINISHED");
    assert_eq!(TaskState::from_str("FINISHED").unwrap(), TaskState::Finished);
    assert_eq!(TaskState::Gone.to_string(), "GONE");
    assert_eq!(TaskState::from_str("GONE").unwrap(), TaskState::Gone);
    assert_eq!(TaskState::GoneByOperator.to_string(), "GONE_BY_OPERATOR");
    assert_eq!(TaskState::from_str("GONE_BY_OPERATOR").unwrap(), TaskState::GoneByOperator);
    assert_eq!(TaskState::Killed.to_string(), "KILLED");
    assert_eq!(TaskState::from_str("KILLED").unwrap(), TaskState::Killed);
    assert_eq!(TaskState::Killing.to_string(), "KILLING");
    assert_eq!(TaskState::from_str("KILLING").unwrap(), TaskState::Killing);
    assert_eq!(TaskState::Lost.to_string(), "LOST");
    assert_eq!(TaskState::from_str("LOST").unwrap(), TaskState::Lost);
    assert_eq!(TaskState::Running.to_string(), "RUNNING");
    assert_eq!(TaskState::from_str("RUNNING").unwrap(), TaskState::Running);
    assert_eq!(TaskState::Staging.to_string(), "STAGING");
    assert_eq!(TaskState::from_str("STAGING").unwrap(), TaskState::Staging);
    assert_eq!(TaskState::Starting.to_string(), "STARTING");
    assert_eq!(TaskState::from_str("STARTING").unwrap(), TaskState::Starting);
    assert_eq!(TaskState::Unknown.to_string(), "UNKNOWN");
    assert_eq!(TaskState::from_str("UNKNOWN").unwrap(), TaskState::Unknown);
    assert_eq!(TaskState::Unreachable.to_string(), "UNREACHABLE");
    assert_eq!(TaskState::from_str("UNREACHABLE").unwrap(), TaskState::Unreachable);
    assert_eq!(TaskState::try_from("DROPPED").unwrap(), TaskState::Dropped);
    assert_eq!(TaskState::try_from(&"DROPPED".to_string()).unwrap(), TaskState::Dropped);
    assert_eq!(TaskState::try_from("DROPPED".to_string()).unwrap(), TaskState::Dropped);
    assert_eq!("DROPPED".parse::<TaskState>().unwrap(), TaskState::Dropped);
    assert_eq!(TaskState::from(&TaskState::Dropped), TaskState::Dropped);
}

#[test]
fn task_state_refuses_other_text() {
    let e = TaskState::from_str("dropped").unwrap_err();
    assert_eq!(e.message(), "invalid value");
    assert!(TaskState::from_str("").is_err());
    assert!(TaskState::try_from(" DROPPED").is_err());
}

#[test]
fn zone_network_wire_names() {
    assert_eq!(ZoneNetwork::Internal.to_string(), "internal");
    assert_eq!(ZoneNetwork::from_str("internal").unwrap(), ZoneNetwork::Internal);
    assert_eq!(ZoneNetwork::Public.to_string(), "public");
    assert_eq!(ZoneNetwork::from_str("public").unwrap(), ZoneNetwork::Public);
    assert_eq!(ZoneNetwork::try_from("internal").unwrap(), ZoneNetwork::Internal);
    assert_eq!(ZoneNetwork::try_from(&"internal".to_string()).unwrap(), ZoneNetwork::Internal);
    assert_eq!(ZoneNetwork::try_from("internal".to_string()).unwrap(), ZoneNetwork::Internal);
    assert_eq!("internal".parse::<ZoneNetwork>().unwrap(), ZoneNetwork::Internal);
    assert_eq!(ZoneNetwork::from(&ZoneNetwork::Internal), ZoneNetwork::Internal);
}

#[test]
fn zone_network_refuses_other_text() {
    let e = ZoneNetwork::from_str("INTERNAL").unwrap_err();
    assert_eq!(e.message(), "invalid value");
    assert!(ZoneNetwork::from_str("").is_err());
    assert!(ZoneNetwork::try_from(" internal").is_err());
}
