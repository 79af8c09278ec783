use dsh_clients::error::{token_error_of, DshError};

#[test]
fn plain_messages() {
    assert_eq!(DshError::RequestError("x".to_string()).message(), "Reqwest error: x");
    assert_eq!(DshError::TokenError("y".to_string()).message(), "TokenError error: y");
    assert_eq!(DshError::PublishError("p".to_string()).message(), "Error while publishing: p");
    assert_eq!(DshError::Utf8Error("u".to_string()).message(), "Error while receiving message: u");
    assert_eq!(DshError::SubscribeError("s".to_string()).message(), "Couldn't subscribe to topic: s");
    assert_eq!(
        DshError::FailedToDisconnect("d".to_string()).message(),
        "Failed to disconnect MQTT client: d"
    );
    assert_eq!(
        DshError::StreamConnectionError("e".to_string()).message(),
        "Event loop disconnected: e"
    );
    assert_eq!(
        DshError::CertificateAddError("c".to_string()).message(),
        "Failed to load TLS certificates: c"
    );
}

#[test]
fn wrapped_error_messages() {
    let io = std::io::Error::new(std::io::ErrorKind::Other, "disk");
    let e: DshError = io.into();
    assert!(matches!(e, DshError::IoError(_)));
    assert_eq!(e.message(), "Io error: disk");
    let json_err = serde_json::from_str::<u8>("x").unwrap_err();
    let text = json_err.to_string();
    let e: DshError = json_err.into();
    assert_eq!(e.message(), format!("SerdeJsonError: {}", text));
}

#[test]
fn token_error_reports_the_message() {
    match token_error_of(&DshError::TokenError("Header and payload are missing".to_string())) {
        DshError::TokenError(m) => assert_eq!(m, "TokenError error: Header and payload are missing"),
        _ => panic!("expected a token error"),
    }
    match token_error_of(&DshError::RequestError("down".to_string())) {
        DshError::TokenError(m) => assert_eq!(m, "Reqwest error: down"),
        _ => panic!("expected a token error"),
    }
}
