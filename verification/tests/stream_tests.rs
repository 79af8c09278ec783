use dsh_clients::model::mqtt_model::{Claims, MqttTokenRequest, Resource};
use dsh_clients::model::rest_model::RestTokenRequest;
use dsh_clients::model::token_request_attr::RetrieveTokenRequest;
use dsh_clients::stream_client::{
    get_broker_url, get_port, BaseMqttOptions, MqttClient, MqttCredentials, MqttEnv, Port,
};
use rumqttc::tokio_rustls::rustls::RootCertStore;

#[test]
fn broker_urls() {
    assert_eq!(get_broker_url(MqttEnv::Dev), "mqtt.dsh-dev.dsh.np.aws.kpn.com");
    assert_eq!(get_broker_url(MqttEnv::Poc), "mqtt.poc.kpn-dsh.com");
    assert_eq!(get_broker_url(MqttEnv::Prod), "mqtt.dsh-prod.dsh.np.aws.kpn.com");
}

#[test]
fn tls_port() {
    assert_eq!(get_port(Port::Mqtts), 8883);
}

#[test]
fn client_from_options() {
    let options = BaseMqttOptions::new(MqttEnv::Dev, RootCertStore::empty());
    let credentials =
        MqttCredentials { mqtt_token: "test_token".to_string(), client_id: "test_client_id".to_string() };
    let _client = MqttClient::new(options, credentials);
}

fn retrieve_request() -> RetrieveTokenRequest {
    RetrieveTokenRequest {
        tenant: "tenant".to_string(),
        api_key: "key".to_string(),
        claims: Some(vec![Claims {
            resource: Resource {
                stream: "weather".to_string(),
                prefix: "/tt".to_string(),
                topic: "#".to_string(),
                type_: Some("topic".to_string()),
            },
            action: "subscribe".to_string(),
        }]),
        client_id: "client".to_string(),
    }
}

#[test]
fn requests_carry_the_retrieval_request() {
    let rest = RestTokenRequest::from(retrieve_request());
    assert_eq!(rest.tenant, "tenant");
    assert_eq!(rest.api_key, "key");
    let mqtt = MqttTokenRequest::new("rest.token.sig".to_string(), retrieve_request());
    assert_eq!(mqtt.tenant, "tenant");
    assert_eq!(mqtt.rest_token, "rest.token.sig");
    assert_eq!(mqtt.client_id, "client");
    assert_eq!(mqtt.claims.unwrap()[0].action, "subscribe");
}
