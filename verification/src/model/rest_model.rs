//! The REST token and the request for it.
use vstd::prelude::*;
use crate::model::token_request_attr::RetrieveTokenRequest;

verus! {

/// A REST token: its raw text and its attributes.
#[derive(Debug)]
pub struct RestToken {
    pub raw_token: String,
    pub token_attributes: RestTokenAttributes,
}

/// The attributes of a REST token, as its payload states them.
#[derive(Debug)]
pub struct RestTokenAttributes {
    pub gen: i64,
    pub endpoint: String,
    pub iss: String,
    pub claims: RestClaims,
    pub exp: i64,
    pub tenant_id: String,
}

/// The claims of a REST token: the right to request an MQTT token.
#[derive(Debug)]
pub struct RestClaims {
    datastreams_token: DatastreamsData,
}

#[derive(Debug)]
struct DatastreamsData {}

/// The parameters of a request for a REST token.
#[derive(Debug, Clone)]
pub struct RestTokenRequest {
    pub tenant: String,
    pub api_key: String,
}

impl RestClaims {
    /// The claims of a REST token (they carry no data of their own).
    pub fn new() -> (res: RestClaims) {
        RestClaims { datastreams_token: DatastreamsData {} }
    }
}


impl RestToken {
    /// A token from its raw text and the attributes read from the payload of
    /// that text.
    pub fn new(raw_token: String, token_attributes: RestTokenAttributes) -> (res: RestToken)
        ensures
            res.raw_token == raw_token,
            res.token_attributes == token_attributes,
    {
        RestToken { raw_token, token_attributes }
    }
}

impl From<RetrieveTokenRequest> for RestTokenRequest {
    fn from(value: RetrieveTokenRequest) -> (res: Self) {
        RestTokenRequest { tenant: value.tenant, api_key: value.api_key }
    }
}

impl vstd::std_specs::convert::FromSpecImpl<RetrieveTokenRequest> for RestTokenRequest {
    open spec fn obeys_from_spec() -> bool {
        true
    }

    open spec fn from_spec(v: RetrieveTokenRequest) -> RestTokenRequest {
        RestTokenRequest { tenant: v.tenant, api_key: v.api_key }
    }
}

} // verus!
