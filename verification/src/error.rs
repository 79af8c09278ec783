//! The errors of the MQTT authentication and streaming flow.
use vstd::prelude::*;
use vstd::string::to_string_from_display_ensures;

verus! {

/// Declares `serde_json::Error` so that an error can carry it.
#[verifier::external_type_specification]
#[verifier::external_body]
pub struct ExSerdeJsonError(serde_json::Error);

/// Declares `std::io::Error` so that an error can carry it.
#[verifier::external_type_specification]
#[verifier::external_body]
pub struct ExIoError(std::io::Error);

/// Declares `reqwest::Error` so that an error can carry it.
#[verifier::external_type_specification]
#[verifier::external_body]
pub struct ExReqwestError(reqwest::Error);

/// Declares `rumqttc::ClientError` so that an error can carry it.
#[verifier::external_type_specification]
#[verifier::external_body]
pub struct ExClientError(rumqttc::ClientError);

/// Everything that can go wrong while fetching tokens or streaming.
#[derive(Debug)]
pub enum DshError {
    RequestError(String),
    TokenError(String),
    SerdeJson(serde_json::Error),
    IoError(std::io::Error),
    Request(reqwest::Error),
    Utf8Error(String),
    PublishError(String),
    SubscribeError(String),
    FailedToDisconnect(String),
    StreamConnectionError(String),
    ClientError(rumqttc::ClientError),
    CertificateAddError(String),
}

/// The text that precedes the detail in the message of each kind of error.
pub open spec fn message_prefix(e: DshError) -> Seq<char> {
    match e {
        DshError::RequestError(_) => "Reqwest error: "@,
        DshError::TokenError(_) => "TokenError error: "@,
        DshError::SerdeJson(_) => "SerdeJsonError: "@,
        DshError::IoError(_) => "Io error: "@,
        DshError::Request(_) => "Reqwest error: "@,
        DshError::PublishError(_) => "Error while publishing: "@,
        DshError::Utf8Error(_) => "Error while receiving message: "@,
        DshError::SubscribeError(_) => "Couldn't subscribe to topic: "@,
        DshError::FailedToDisconnect(_) => "Failed to disconnect MQTT client: "@,
        DshError::StreamConnectionError(_) => "Event loop disconnected: "@,
        DshError::ClientError(_) => "Mqtt Client Error: "@,
        DshError::CertificateAddError(_) => "Failed to load TLS certificates: "@,
    }
}

/// The detail of an error that carries a plain message.
pub open spec fn plain_detail(e: DshError) -> Option<Seq<char>> {
    match e {
        DshError::RequestError(s) => Some(s@),
        DshError::TokenError(s) => Some(s@),
        DshError::PublishError(s) => Some(s@),
        DshError::Utf8Error(s) => Some(s@),
        DshError::SubscribeError(s) => Some(s@),
        DshError::FailedToDisconnect(s) => Some(s@),
        DshError::StreamConnectionError(s) => Some(s@),
        DshError::CertificateAddError(s) => Some(s@),
        _ => None,
    }
}

/// `s` is the message of `e`: the fixed text of its kind followed by its
/// detail, which for a carried outside error is that error's display text
/// (the text its `to_string` gives).
pub open spec fn is_message_of(e: DshError, s: Seq<char>) -> bool {
    match e {
        DshError::SerdeJson(x) => exists|t: String|
            to_string_from_display_ensures::<serde_json::Error>(&x, t) && s == message_prefix(e) + t@,
        DshError::IoError(x) => exists|t: String|
            to_string_from_display_ensures::<std::io::Error>(&x, t) && s == message_prefix(e) + t@,
        DshError::Request(x) => exists|t: String|
            to_string_from_display_ensures::<reqwest::Error>(&x, t) && s == message_prefix(e) + t@,
        DshError::ClientError(x) => exists|t: String|
            to_string_from_display_ensures::<rumqttc::ClientError>(&x, t) && s == message_prefix(e)
                + t@,
        _ => s == message_prefix(e) + plain_detail(e)->0,
    }
}

fn prefixed(prefix: &str, detail: &str) -> (res: String)
    ensures
        res@ == prefix@ + detail@,
        res@.len() >= prefix@.len(),
        res@.subrange(0, prefix@.len() as int) == prefix@,
{
    let mut s = String::from_str(prefix);
    s.append(detail);
    assert(s@.subrange(0, prefix@.len() as int) =~= prefix@);
    s
}

fn prefixed_display<T: core::fmt::Display>(prefix: &str, detail: &T) -> (res: String)
    ensures
        exists|t: String| to_string_from_display_ensures::<T>(detail, t) && res@ == prefix@ + t@,
        res@.len() >= prefix@.len(),
        res@.subrange(0, prefix@.len() as int) == prefix@,
{
    let t = detail.to_string();
    let res = prefixed(prefix, t.as_str());
    assert(to_string_from_display_ensures::<T>(detail, t) && res@ == prefix@ + t@);
    assert(res@.subrange(0, prefix@.len() as int) =~= prefix@);
    res
}

impl DshError {
    /// The human-readable message of the error: a fixed text for its kind,
    /// followed by its detail (for a carried outside error, that error's own
    /// display text).
    pub fn message(&self) -> (res: String)
        ensures
            is_message_of(*self, res@),
            plain_detail(*self) is Some ==> res@ == message_prefix(*self) + plain_detail(*self)->0,
            res@.len() >= message_prefix(*self).len(),
            res@.subrange(0, message_prefix(*self).len() as int) == message_prefix(*self),
    {
        let res = match self {
            DshError::RequestError(e) => prefixed("Reqwest error: ", e.as_str()),
            DshError::TokenError(e) => prefixed("TokenError error: ", e.as_str()),
            DshError::SerdeJson(e) => prefixed_display("SerdeJsonError: ", e),
            DshError::IoError(e) => prefixed_display("Io error: ", e),
            DshError::Request(e) => prefixed_display("Reqwest error: ", e),
            DshError::PublishError(e) => prefixed("Error while publishing: ", e.as_str()),
            DshError::Utf8Error(e) => prefixed("Error while receiving message: ", e.as_str()),
            DshError::SubscribeError(e) => prefixed("Couldn't subscribe to topic: ", e.as_str()),
            DshError::FailedToDisconnect(e) => prefixed("Failed to disconnect MQTT client: ", e.as_str()),
            DshError::StreamConnectionError(e) => prefixed("Event loop disconnected: ", e.as_str()),
            DshError::ClientError(e) => prefixed_display("Mqtt Client Error: ", e),
            DshError::CertificateAddError(e) => prefixed("Failed to load TLS certificates: ", e.as_str()),
        };
        res
    }
}

/// The `TokenError` that reports `e`: its text is the message of `e`, which
/// is how a failure to read an MQTT token is reported.
pub fn token_error_of(e: &DshError) -> (res: DshError)
    ensures
        res is TokenError,
        res matches DshError::TokenError(m) ==> {
            &&& m@.len() >= message_prefix(*e).len()
            &&& m@.subrange(0, message_prefix(*e).len() as int) == message_prefix(*e)
            &&& plain_detail(*e) is Some ==> m@ == message_prefix(*e) + plain_detail(*e)->0
            &&& is_message_of(*e, m@)
        },
{
    DshError::TokenError(e.message())
}

impl From<std::io::Error> for DshError {
    fn from(err: std::io::Error) -> (res: DshError) {
        DshError::IoError(err)
    }
}

impl vstd::std_specs::convert::FromSpecImpl<std::io::Error> for DshError {
    open spec fn obeys_from_spec() -> bool {
        true
    }

    open spec fn from_spec(v: std::io::Error) -> DshError {
        DshError::IoError(v)
    }
}

impl From<reqwest::Error> for DshError {
    fn from(e: reqwest::Error) -> (res: DshError) {
        DshError::Request(e)
    }
}

impl vstd::std_specs::convert::FromSpecImpl<reqwest::Error> for DshError {
    open spec fn obeys_from_spec() -> bool {
        true
    }

    open spec fn from_spec(v: reqwest::Error) -> DshError {
        DshError::Request(v)
    }
}

impl From<serde_json::Error> for DshError {
    fn from(error: serde_json::Error) -> (res: DshError) {
        DshError::SerdeJson(error)
    }
}

impl vstd::std_specs::convert::FromSpecImpl<serde_json::Error> for DshError {
    open spec fn obeys_from_spec() -> bool {
        true
    }

    open spec fn from_spec(v: serde_json::Error) -> DshError {
        DshError::SerdeJson(v)
    }
}

impl From<rumqttc::ClientError> for DshError {
    fn from(error: rumqttc::ClientError) -> (res: DshError) {
        DshError::ClientError(error)
    }
}

impl vstd::std_specs::convert::FromSpecImpl<rumqttc::ClientError> for DshError {
    open spec fn obeys_from_spec() -> bool {
        true
    }

    open spec fn from_spec(v: rumqttc::ClientError) -> DshError {
        DshError::ClientError(v)
    }
}

} // verus!
