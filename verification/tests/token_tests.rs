use dsh_clients::error::DshError;
use dsh_clients::model::utils::{decode_payload, extract_header_and_payload, token_payload};

#[test]
fn payload_is_middle_part() {
    assert_eq!(extract_header_and_payload("header.payload.signature").unwrap(), "payload");
}

#[test]
fn payload_without_signature() {
    assert_eq!(extract_header_and_payload("header.payload").unwrap(), "payload");
}

#[test]
fn payload_may_be_empty() {
    assert_eq!(extract_header_and_payload("header..signature").unwrap(), "");
    assert_eq!(extract_header_and_payload(".").unwrap(), "");
}

#[test]
fn payload_of_many_parts() {
    assert_eq!(extract_header_and_payload("a.b.c.d").unwrap(), "b");
}

#[test]
fn payload_with_multibyte_characters() {
    assert_eq!(extract_header_and_payload("hé.pä.s").unwrap(), "pä");
}

#[test]
fn token_without_dot_is_refused() {
    match extract_header_and_payload("no-dots-here") {
        Err(DshError::TokenError(m)) => assert_eq!(m, "Header and payload are missing"),
        _ => panic!("expected a token error"),
    }
    assert!(matches!(extract_header_and_payload(""), Err(DshError::TokenError(_))));
}

#[test]
fn decodes_base64_without_padding() {
    assert_eq!(decode_payload("aGVsbG8").unwrap(), b"hello".to_vec());
    assert_eq!(decode_payload("").unwrap(), Vec::<u8>::new());
}

#[test]
fn refuses_invalid_base64() {
    assert!(matches!(decode_payload("a$b"), Err(DshError::IoError(_))));
}

#[test]
fn refuses_padded_base64() {
    assert!(matches!(decode_payload("aGVsbG8="), Err(DshError::IoError(_))));
}

#[test]
fn payload_of_token() {
    // {"exp":5} encoded without padding
    let raw = "eyJhbGciOiJIUzI1NiJ9.eyJleHAiOjV9.c2ln";
    assert_eq!(token_payload(raw).unwrap(), br#"{"exp":5}"#.to_vec());
}

#[test]
fn payload_of_token_without_payload() {
    assert!(matches!(token_payload("nodots"), Err(DshError::TokenError(_))));
    assert!(matches!(token_payload("x.%%%.y"), Err(DshError::IoError(_))));
}

#[test]
fn payload_of_token_without_dot_names_the_problem() {
    match token_payload("abc") {
        Err(DshError::TokenError(m)) => assert_eq!(m, "Header and payload are missing"),
        _ => panic!("expected a token error"),
    }
}
