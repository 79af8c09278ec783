//! Token requests, tokens and the framing of raw tokens.
pub mod mqtt_model;
pub mod rest_model;
pub mod token_request_attr;
pub mod utils;

pub use mqtt_model::{Claims, MqttToken, MqttTokenAttributes, MqttTokenRequest, Resource};
pub use rest_model::{RestClaims, RestToken, RestTokenAttributes, RestTokenRequest};
pub use token_request_attr::RetrieveTokenRequest;
