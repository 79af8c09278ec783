//! The MQTT token and the request for it.
use vstd::prelude::*;
use crate::model::token_request_attr::RetrieveTokenRequest;

verus! {

/// The attributes of an MQTT token, as its payload states them.
#[derive(Debug)]
pub struct MqttTokenAttributes {
    pub gen: i32,
    pub endpoint: String,
    pub iss: String,
    pub claims: Vec<Claims>,
    pub exp: i32,
    pub client_id: String,
    pub iat: i32,
    pub tenant_id: String,
}


/// The parameters of a request for an MQTT token.
pub struct MqttTokenRequest {
    pub tenant: String,
    pub rest_token: String,
    pub claims: Option<Vec<Claims>>,
    pub client_id: String,
}

/// A claim for an MQTT request: an `action` (subscribe or publish) on a resource.
#[derive(Debug, Clone)]
pub struct Claims {
    pub resource: Resource,
    pub action: String,
}

/// The resource that a claim is about: a stream, a prefix, a topic pattern and
/// optionally the kind of resource.
#[derive(Debug, Clone)]
pub struct Resource {
    pub stream: String,
    pub prefix: String,
    pub topic: String,
    pub type_: Option<String>,
}

/// An MQTT token: its raw text and its attributes.
#[derive(Debug)]
pub struct MqttToken {
    pub raw_token: String,
    pub token_attributes: MqttTokenAttributes,
}

impl MqttToken {
    /// A token from its raw text and the attributes read from the payload of
    /// that text.
    pub fn new(raw_token: String, token_attributes: MqttTokenAttributes) -> (res: MqttToken)
        ensures
            res.raw_token == raw_token,
            res.token_attributes == token_attributes,
    {
        MqttToken { raw_token, token_attributes }
    }
}

impl MqttTokenRequest {
    /// The request for an MQTT token made with `rest_token` on behalf of the
    /// client that sent `value`.
    pub fn new(rest_token: String, value: RetrieveTokenRequest) -> (res: Self)
        ensures
            res.tenant == value.tenant,
            res.rest_token == rest_token,
            res.claims == value.claims,
            res.client_id == value.client_id,
    {
        MqttTokenRequest {
            tenant: value.tenant,
            rest_token,
            claims: value.claims,
            client_id: value.client_id,
        }
    }
}

} // verus!
