//! Verified core of the DSH platform clients: environment configuration,
//! token framing and caching for the MQTT authentication flow, the MQTT
//! broker selection, and the data model of the tenant resource management
//! REST API.
use vstd::prelude::*;

pub mod text;
pub mod config;
pub mod error;
pub mod model;
pub mod authentication_client;
pub mod stream_client;
pub mod device_id;
pub mod request;
pub mod types;
pub mod models;

verus! {

} // verus!
