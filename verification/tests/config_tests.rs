use dsh_clients::config::{DshConfig, DshEnv};

#[test]
fn dev_config_endpoints() {
    let conf = DshConfig::new(DshEnv::Dev);
    assert!(matches!(conf.get_env(), DshEnv::Dev));
    assert_eq!(conf.get_rest_token_endpoint(), "https://api.dsh-dev.dsh.np.aws.kpn.com/auth/v0/token");
    assert_eq!(
        conf.get_mqtt_token_endpoint(),
        "https://api.dsh-dev.dsh.np.aws.kpn.com/datastreams/v0/mqtt/token"
    );
}

#[test]
fn prod_config_endpoints() {
    let conf = DshConfig::new(DshEnv::Prod);
    assert_eq!(conf.get_rest_token_endpoint(), "https://api.dsh-prod.dsh.np.aws.kpn.com/auth/v0/token");
    assert_eq!(
        conf.get_mqtt_token_endpoint(),
        "https://api.dsh-prod.dsh.np.aws.kpn.com/datastreams/v0/mqtt/token"
    );
}

#[test]
fn poc_config_endpoints() {
    let conf = DshConfig::new(DshEnv::Poc);
    assert_eq!(conf.get_rest_token_endpoint(), "https://api.poc.kpn-dsh.com/auth/v0/token");
    assert_eq!(conf.get_mqtt_token_endpoint(), "https://api.poc.kpn-dsh.com/datastreams/v0/mqtt/token");
}

#[test]
fn default_config_is_dev() {
    let conf = DshConfig::default();
    assert!(matches!(conf.env, DshEnv::Dev));
    assert_eq!(conf.get_rest_token_endpoint(), DshConfig::new(DshEnv::Dev).get_rest_token_endpoint());
    assert_eq!(conf.get_mqtt_token_endpoint(), DshConfig::new(DshEnv::Dev).get_mqtt_token_endpoint());
}

#[test]
fn setters_replace_one_field() {
    let mut conf = DshConfig::new(DshEnv::Dev);
    conf.set_rest_token_endpoint("https://example.org/token".to_string());
    assert_eq!(conf.get_rest_token_endpoint(), "https://example.org/token");
    assert_eq!(
        conf.get_mqtt_token_endpoint(),
        "https://api.dsh-dev.dsh.np.aws.kpn.com/datastreams/v0/mqtt/token"
    );
    conf.set_mqtt_token_endpoint("https://example.org/mqtt".to_string());
    assert_eq!(conf.get_mqtt_token_endpoint(), "https://example.org/mqtt");
    conf.set_env(DshEnv::Poc);
    assert!(matches!(conf.get_env(), DshEnv::Poc));
    assert_eq!(conf.get_rest_token_endpoint(), "https://example.org/token");
}

#[test]
fn config_text_lists_env_and_quoted_endpoints() {
    let config = DshConfig::new(DshEnv::Poc);
    assert_eq!(
        config.to_string(),
        "DshConfig { env: Poc, rest_token_endpoint: \"https://api.poc.kpn-dsh.com/auth/v0/token\", mqtt_token_endpoint: \"https://api.poc.kpn-dsh.com/datastreams/v0/mqtt/token\" }"
    );
}

#[test]
fn config_text_matches_debug_and_escapes_endpoints() {
    let mut config = DshConfig::new(DshEnv::Dev);
    config.set_rest_token_endpoint("say \"hi\"\\".to_string());
    assert_eq!(config.to_string(), format!("{:?}", config));
    assert!(config.to_string().contains("rest_token_endpoint: \"say \\\"hi\\\"\\\\\""));
}
