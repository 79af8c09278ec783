//! What a client hands in to obtain an MQTT token.
use vstd::prelude::*;
use crate::model::mqtt_model::Claims;

verus! {

/// The information a client sends to retrieve a token.
#[derive(Debug, Clone)]
pub struct RetrieveTokenRequest {
    pub tenant: String,
    pub api_key: String,
    pub claims: Option<Vec<Claims>>,
    pub client_id: String,
}

} // verus!
