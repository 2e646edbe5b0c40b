use base64::prelude::{Engine, BASE64_STANDARD};
use p384::ecdsa::signature::Signer;
use p384::ecdsa::{Signature, SigningKey};
use ribbon::error_model::ErrorModelKind;
use ribbon::session::{
    session_id_from_token, session_id_outcome, session_key_outcome, session_public_key, session_token, session_token_outcome, signed_data,
    SessionError, SessionModel, SessionOption,
};

fn signing_key() -> SigningKey {
    SigningKey::from_slice(&[7u8; 48]).unwrap()
}

fn session() -> SessionModel {
    let key = signing_key();
    SessionModel { id: 1, public_key: key.verifying_key().to_sec1_bytes().to_vec(), user_id: 2 }
}

fn signature_header(text: &str) -> Vec<u8> {
    let signature: Signature = signing_key().sign(text.as_bytes());
    BASE64_STANDARD.encode(signature.to_bytes()).into_bytes()
}

#[test]
fn signed_request_is_accepted() {
    let body = b"{\"a\":1}";
    let text = format!("POST /v1/x;{}", BASE64_STANDARD.encode(body));
    let header = signature_header(&text);
    assert_eq!(session().verify_request("POST", "/v1/x", Some(&header), body), Ok(()));
}

#[test]
fn tampered_request_is_refused() {
    let body = b"{\"a\":1}";
    let text = format!("POST /v1/x;{}", BASE64_STANDARD.encode(body));
    let header = signature_header(&text);
    assert_eq!(session().verify_request("POST", "/v1/y", Some(&header), body), Err(SessionError::Ecdsa));
    assert_eq!(session().verify_request("POST", "/v1/x", Some(&header), b"{}"), Err(SessionError::Ecdsa));
}

#[test]
fn missing_or_garbled_signatures() {
    assert_eq!(session().verify_request("GET", "/", None, b""), Err(SessionError::MissingSignature));
    assert_eq!(session().verify_request("GET", "/", Some(b"%%%"), b""), Err(SessionError::Base64));
    assert_eq!(session().verify_request("GET", "/", Some(b"aGk="), b""), Err(SessionError::Ecdsa));
}

#[test]
fn session_option_required() {
    assert_eq!(SessionOption::from_option(Some(3u64)).required().unwrap(), 3);
    assert_eq!(*SessionOption::from_option(Some(3u64)).as_option(), Some(3));
    let missing = SessionOption::<u64>::from_option(None).required().unwrap_err();
    assert_eq!(missing.status_code(), 401);
}

#[test]
fn signed_data_layout() {
    assert_eq!(signed_data("PATCH", "/v1/server/1", "e30="), "PATCH /v1/server/1;e30=");
    assert_eq!(signed_data("", "", ""), " ;");
}

#[test]
fn uploaded_session_keys() {
    let key = signing_key().verifying_key().to_sec1_bytes().to_vec();
    assert_eq!(session_public_key(&key).unwrap(), key);
    let uncompressed = signing_key().verifying_key().to_encoded_point(false).as_bytes().to_vec();
    assert_eq!(key, uncompressed);
    assert_eq!(session_public_key(&uncompressed).unwrap(), uncompressed);
    let compressed = signing_key().verifying_key().to_encoded_point(true).as_bytes().to_vec();
    assert_eq!(compressed.len(), 49);
    assert_eq!(session_public_key(&compressed).unwrap(), uncompressed);
    let refused = session_public_key(&[4u8; 97]).unwrap_err();
    assert!(matches!(refused.error, ErrorModelKind::InternalError));
    assert!(session_public_key(&[]).is_err());
}

#[test]
fn session_tokens_round_trip() {
    let token = session_token(41, 9001, b"secret").unwrap();
    assert_eq!(token.matches('.').count(), 2);
    assert_eq!(session_id_from_token(&token, b"secret").unwrap(), 41);
    let forged = session_id_from_token(&token, b"other").unwrap_err();
    assert!(matches!(forged.error, ErrorModelKind::InvalidCredentials));
    assert_eq!(forged.status_code(), 401);
    assert!(session_id_from_token("not a token", b"secret").is_err());
}

#[test]
fn session_token_outcomes() {
    assert_eq!(session_token_outcome(Some("a.b.c".to_string())).unwrap(), "a.b.c");
    assert!(matches!(session_token_outcome(None).unwrap_err().error, ErrorModelKind::InternalError));
    assert_eq!(session_id_outcome(Some(5)).unwrap(), 5);
    assert!(matches!(session_id_outcome(None).unwrap_err().error, ErrorModelKind::InvalidCredentials));
}

#[test]
fn session_key_outcomes() {
    assert_eq!(session_key_outcome(Some(vec![4, 1])).unwrap(), vec![4, 1]);
    assert!(matches!(session_key_outcome(None).unwrap_err().error, ErrorModelKind::InternalError));
}

fn signed_token(claims: Vec<(&str, serde_json::Value)>, key: &[u8]) -> String {
    let mut map = serde_json::Map::new();
    for (name, value) in claims {
        map.insert(name.to_string(), value);
    }
    jsonwebtoken::encode(
        &jsonwebtoken::Header::default(),
        &serde_json::Value::Object(map),
        &jsonwebtoken::EncodingKey::from_secret(key),
    )
    .unwrap()
}

#[test]
fn session_tokens_are_judged() {
    let plain = signed_token(vec![("session_id_temp", serde_json::Value::from(5u64))], b"k");
    assert_eq!(session_id_from_token(&plain, b"k").unwrap(), 5);
    let fresh = signed_token(
        vec![("session_id_temp", serde_json::Value::from(6u64)), ("exp", serde_json::Value::from(4_000_000_000u64))],
        b"k",
    );
    assert_eq!(session_id_from_token(&fresh, b"k").unwrap(), 6);
    let expired = signed_token(
        vec![("session_id_temp", serde_json::Value::from(7u64)), ("exp", serde_json::Value::from(1u64))],
        b"k",
    );
    assert!(matches!(session_id_from_token(&expired, b"k").unwrap_err().error, ErrorModelKind::InvalidCredentials));
    let without_claim = signed_token(vec![("sub", serde_json::Value::from("1"))], b"k");
    assert!(session_id_from_token(&without_claim, b"k").is_err());
    let text_claim = signed_token(vec![("session_id_temp", serde_json::Value::from("5"))], b"k");
    assert!(session_id_from_token(&text_claim, b"k").is_err());
    let with_audience = signed_token(
        vec![("session_id_temp", serde_json::Value::from(8u64)), ("aud", serde_json::Value::from("x"))],
        b"k",
    );
    assert!(session_id_from_token(&with_audience, b"k").is_err());
}
