//! Dashboard sessions: each holds a P-384 public key, and every request made in the
//! session is signed with the matching private key.
use vstd::prelude::*;
use crate::error_model::{ErrorModel, ErrorModelKind};
use crate::messages::{decimal_string, decimal_text};

verus! {

/// What the standard Base64 engine decodes the text to, or `None` where it refuses it.
pub uninterp spec fn base64_decoded(text: Seq<u8>) -> Option<Seq<u8>>;

/// The standard, padded Base64 text of the bytes.
pub uninterp spec fn base64_encoded(bytes: Seq<u8>) -> Seq<char>;

/// Whether the P-384 key given in SEC1 form accepts the signature, given in fixed-size
/// form, as made over the message.
pub uninterp spec fn p384_signature_accepted(key_sec1: Seq<u8>, message: Seq<u8>, signature: Seq<u8>) -> bool;

/// `Engine::decode` on `BASE64_STANDARD`. Its result is named, not stated; an error of
/// any kind comes back as `None`.
#[verifier::external_body]
fn base64_decode(text: &[u8]) -> (bytes: Option<Vec<u8>>)
    ensures
        bytes is None <==> base64_decoded(text@) is None,
        bytes matches Some(b) ==> base64_decoded(text@) == Some(b@),
{
    base64::Engine::decode(&base64::prelude::BASE64_STANDARD, text).ok()
}

/// `Engine::encode` on `BASE64_STANDARD`. Its result is named, not stated.
#[verifier::external_body]
pub(crate) fn base64_encode(bytes: &[u8]) -> (text: String)
    ensures
        text@ == base64_encoded(bytes@),
{
    base64::Engine::encode(&base64::prelude::BASE64_STANDARD, bytes)
}

/// `Verifier::verify` of a P-384 `VerifyingKey`, read from SEC1 bytes with
/// `VerifyingKey::from_sec1_bytes`, on a `Signature` read with `Signature::from_slice`.
/// Its result is named, not stated: true exactly where all three succeed.
#[verifier::external_body]
fn p384_verify(key_sec1: &[u8], message: &[u8], signature: &[u8]) -> (accepted: bool)
    ensures
        accepted == p384_signature_accepted(key_sec1@, message@, signature@),
{
    match (p384::ecdsa::VerifyingKey::from_sec1_bytes(key_sec1), p384::ecdsa::Signature::from_slice(signature)) {
        (Ok(key), Ok(signature)) => p384::ecdsa::signature::Verifier::verify(&key, message, &signature).is_ok(),
        _ => false,
    }
}

/// The SEC1 encoding that P-384 gives back for the key the bytes hold, or `None` where
/// they hold no P-384 key in SEC1 form.
pub uninterp spec fn p384_sec1_reencoded(bytes: Seq<u8>) -> Option<Seq<u8>>;

/// `VerifyingKey::from_sec1_bytes` of P-384, then `VerifyingKey::to_sec1_bytes` on the
/// key read: the key's own SEC1 encoding (P-384 writes points uncompressed), or `None`
/// where the bytes are no key. Its result is named, not stated.
#[verifier::external_body]
fn p384_reencode(bytes: &[u8]) -> (encoded: Option<Vec<u8>>)
    ensures
        encoded is None <==> p384_sec1_reencoded(bytes@) is None,
        encoded matches Some(e) ==> p384_sec1_reencoded(bytes@) == Some(e@),
{
    match p384::ecdsa::VerifyingKey::from_sec1_bytes(bytes) {
        Ok(key) => Some(key.to_sec1_bytes().to_vec()),
        Err(_) => None,
    }
}

/// What opening a session with an uploaded key answers, given the key's encoding as
/// P-384 gives it back: that encoding, or an internal error where there is no key.
pub fn session_key_outcome(encoded: Option<Vec<u8>>) -> (key: Result<Vec<u8>, ErrorModel>)
    ensures
        encoded matches Some(e) ==> key == Ok::<Vec<u8>, ErrorModel>(e),
        encoded is None ==> (key matches Err(e) && e.error is InternalError),
{
    match encoded {
        Some(e) => Ok(e),
        None => Err(ErrorModelKind::InternalError.model()),
    }
}

/// The key a new session is opened with, as it is stored: the SEC1 encoding of the
/// uploaded P-384 key, or an internal error where the upload is no such key.
pub fn session_public_key(upload: &[u8]) -> (key: Result<Vec<u8>, ErrorModel>)
    ensures
        key is Ok <==> p384_sec1_reencoded(upload@) is Some,
        key matches Ok(k) ==> p384_sec1_reencoded(upload@) == Some(k@),
        key matches Err(e) ==> e.error is InternalError,
{
    session_key_outcome(p384_reencode(upload))
}

/// The names and values of a token's number claims.
pub open spec fn number_claims_view(claims: Seq<(&str, u64)>) -> Seq<(Seq<char>, u64)> {
    claims.map_values(|c: (&str, u64)| (c.0@, c.1))
}

/// The names and values of a token's text claims.
pub open spec fn text_claims_view(claims: Seq<(&str, &str)>) -> Seq<(Seq<char>, Seq<char>)> {
    claims.map_values(|c: (&str, &str)| (c.0@, c.1@))
}

/// The names of claims.
pub open spec fn claim_names_view(names: Seq<&str>) -> Seq<Seq<char>> {
    names.map_values(|n: &str| n@)
}

/// The HS256 JSON Web Token, with the default header, signed with `key`, whose claims
/// form one JSON object of the number claims and then the text claims (a later claim of
/// the same name wins); `None` where encoding fails.
pub uninterp spec fn jwt_encoded(
    number_claims: Seq<(Seq<char>, u64)>,
    text_claims: Seq<(Seq<char>, Seq<char>)>,
    key: Seq<u8>,
) -> Option<Seq<char>>;

/// `jsonwebtoken::encode` with the default header (HS256) and `EncodingKey::from_secret`,
/// on the claims given, gathered into one JSON object. Its result is named, not stated.
#[verifier::external_body]
fn jwt_encode(number_claims: &[(&str, u64)], text_claims: &[(&str, &str)], key: &[u8]) -> (token: Option<String>)
    ensures
        token is None <==> jwt_encoded(number_claims_view(number_claims@), text_claims_view(text_claims@), key@) is None,
        token matches Some(t) ==> jwt_encoded(number_claims_view(number_claims@), text_claims_view(text_claims@), key@) == Some(t@),
{
    let mut claims = std::collections::BTreeMap::new();
    for (name, value) in number_claims {
        claims.insert(*name, serde_json::Value::from(*value));
    }
    for (name, value) in text_claims {
        claims.insert(*name, serde_json::Value::from(*value));
    }
    let key = jsonwebtoken::EncodingKey::from_secret(key);
    jsonwebtoken::encode(&jsonwebtoken::Header::default(), &claims, &key).ok()
}

/// The claims of a session's token: its id, as a number under `session_id_temp`.
pub open spec fn session_number_claims(session_id: u64) -> Seq<(Seq<char>, u64)> {
    seq![("session_id_temp"@, session_id)]
}

/// The claims of a session's token: its user's id, in decimal text under `sub`.
pub open spec fn session_text_claims(user_id: u64) -> Seq<(Seq<char>, Seq<char>)> {
    seq![("sub"@, decimal_text(user_id as nat))]
}

/// What issuing a session token answers, given what the encoding gave: the token, or an
/// internal error where encoding failed.
pub fn session_token_outcome(encoded: Option<String>) -> (token: Result<String, ErrorModel>)
    ensures
        encoded matches Some(t) ==> token == Ok::<String, ErrorModel>(t),
        encoded is None ==> (token matches Err(e) && e.error is InternalError),
{
    match encoded {
        Some(t) => Ok(t),
        None => Err(ErrorModelKind::InternalError.model()),
    }
}

/// The token that carries a new session in the session cookie: its claims are the
/// session's id and, as text, its user's id.
pub fn session_token(session_id: u64, user_id: u64, key: &[u8]) -> (token: Result<String, ErrorModel>)
    ensures
        token is Ok <==> jwt_encoded(session_number_claims(session_id), session_text_claims(user_id), key@) is Some,
        token matches Ok(t) ==> jwt_encoded(session_number_claims(session_id), session_text_claims(user_id), key@)
            == Some(t@),
        token matches Err(e) ==> e.error is InternalError,
{
    let user_text = decimal_string(user_id);
    let number_claims: Vec<(&str, u64)> = vec![("session_id_temp", session_id)];
    let text_claims: Vec<(&str, &str)> = vec![("sub", user_text.as_str())];
    proof {
        assert(number_claims_view(number_claims@) =~= session_number_claims(session_id));
        assert(text_claims_view(text_claims@) =~= session_text_claims(user_id));
    }
    session_token_outcome(jwt_encode(number_claims.as_slice(), text_claims.as_slice(), key))
}

/// The number that the claim `claim` of `token` holds, where the token's HS256
/// signature verifies under `key`, it carries the required claims, and it passes every
/// check of `jsonwebtoken::decode` but those of time (expiry, not-before); `None`
/// otherwise.
pub uninterp spec fn jwt_signed_claim(
    token: Seq<char>,
    key: Seq<u8>,
    claim: Seq<char>,
    required_claims: Seq<Seq<char>>,
) -> Option<u64>;

/// `jsonwebtoken::decode` with `DecodingKey::from_secret` and HS256 validation that
/// requires the claims given and checks expiry where asked, reading the claim `claim`
/// as a number; `None` where any of it fails. Where expiry is checked, the time decides
/// too, so only what the signature and claims give is stated.
#[verifier::external_body]
fn jwt_number_claim(token: &str, key: &[u8], claim: &str, required_claims: &[&str], check_expiry: bool) -> (value: Option<u64>)
    ensures
        value matches Some(v) ==> jwt_signed_claim(token@, key@, claim@, claim_names_view(required_claims@)) == Some(v),
        jwt_signed_claim(token@, key@, claim@, claim_names_view(required_claims@)) is None ==> value is None,
        !check_expiry ==> value == jwt_signed_claim(token@, key@, claim@, claim_names_view(required_claims@)),
{
    let mut validation = jsonwebtoken::Validation::new(jsonwebtoken::Algorithm::HS256);
    validation.set_required_spec_claims(required_claims);
    validation.validate_exp = check_expiry;
    let key = jsonwebtoken::DecodingKey::from_secret(key);
    let decoded = jsonwebtoken::decode::<std::collections::BTreeMap<String, serde_json::Value>>(token, &key, &validation);
    decoded.ok()?.claims.get(claim)?.as_u64()
}

/// What reading a session token answers, given the session id read from it, if any:
/// that id, or a refusal for invalid credentials.
pub fn session_id_outcome(decoded: Option<u64>) -> (id: Result<u64, ErrorModel>)
    ensures
        decoded matches Some(i) ==> id == Ok::<u64, ErrorModel>(i),
        decoded is None ==> (id matches Err(e) && e.error is InvalidCredentials),
{
    match decoded {
        Some(i) => Ok(i),
        None => Err(ErrorModelKind::InvalidCredentials.model()),
    }
}

/// The session id that a session token carries under `session_id_temp`, signed with
/// `key`, with no claim required and expiry checked. A token that is forged, malformed
/// or without that claim is refused for invalid credentials, and so is an expired one.
pub fn session_id_from_token(token: &str, key: &[u8]) -> (id: Result<u64, ErrorModel>)
    ensures
        id matches Ok(i) ==> jwt_signed_claim(token@, key@, "session_id_temp"@, Seq::empty()) == Some(i),
        jwt_signed_claim(token@, key@, "session_id_temp"@, Seq::empty()) is None ==> id is Err,
        id matches Err(e) ==> e.error is InvalidCredentials,
{
    let no_claims: Vec<&str> = Vec::new();
    proof {
        assert(claim_names_view(no_claims@) =~= Seq::<Seq<char>>::empty());
    }
    session_id_outcome(jwt_number_claim(token, key, "session_id_temp", no_claims.as_slice(), true))
}

/// Why a signed request was refused.
#[derive(Clone, Copy, Debug, PartialEq, Eq, Structural)]
pub enum SessionError {
    /// The request carries no signature.
    MissingSignature,
    /// The signature is not Base64.
    Base64,
    /// The signature does not verify.
    Ecdsa,
}

/// A dashboard session of a user.
pub struct SessionModel {
    pub id: u64,
    /// The session's public key, in SEC1 form.
    pub public_key: Vec<u8>,
    pub user_id: u64,
}

/// The text that a request's signature covers: the method, a space, the path, a
/// semicolon and the Base64 of the body.
pub open spec fn signed_text(method: Seq<char>, path: Seq<char>, body: Seq<u8>) -> Seq<char> {
    method + seq![' '] + path + seq![';'] + base64_encoded(body)
}

/// The text that a request's signature covers, given the Base64 of its body: the
/// method, a space, the path, a semicolon and that Base64.
pub fn signed_data(method: &str, path: &str, encoded_body: &str) -> (data: String)
    ensures
        data@ == method@ + seq![' '] + path@ + seq![';'] + encoded_body@,
{
    let mut data = String::from_str(method);
    data.append(" ");
    data.append(path);
    data.append(";");
    data.append(encoded_body);
    proof {
        reveal_strlit(" ");
        reveal_strlit(";");
        assert(data@ =~= method@ + seq![' '] + path@ + seq![';'] + encoded_body@);
    }
    data
}

/// How a signed request is judged.
pub open spec fn verification_outcome(
    key_sec1: Seq<u8>,
    method: Seq<char>,
    path: Seq<char>,
    signature_header: Option<Seq<u8>>,
    body: Seq<u8>,
) -> Result<(), SessionError> {
    match signature_header {
        None => Err(SessionError::MissingSignature),
        Some(header) => match base64_decoded(header) {
            None => Err(SessionError::Base64),
            Some(signature) => if p384_signature_accepted(
                key_sec1,
                vstd::utf8::encode_utf8(signed_text(method, path, body)),
                signature,
            ) {
                Ok(())
            } else {
                Err(SessionError::Ecdsa)
            },
        },
    }
}

/// The view of an optional header value.
pub open spec fn header_view(header: Option<&[u8]>) -> Option<Seq<u8>> {
    match header {
        Some(h) => Some(h@),
        None => None,
    }
}

impl SessionModel {
    /// Checks that a request was signed with the session's key: the signature header
    /// holds, in Base64, a signature over the request's method, path and body.
    pub fn verify_request(&self, method: &str, path: &str, signature_header: Option<&[u8]>, body: &[u8]) -> (outcome: Result<(), SessionError>)
        ensures
            outcome == verification_outcome(self.public_key@, method@, path@, header_view(signature_header), body@),
    {
        let raw_signature = match signature_header {
            Some(h) => h,
            None => {
                return Err(SessionError::MissingSignature);
            },
        };
        let decoded_signature = match base64_decode(raw_signature) {
            Some(d) => d,
            None => {
                return Err(SessionError::Base64);
            },
        };
        let encoded_body = base64_encode(body);
        let data = signed_data(method, path, encoded_body.as_str());
        if p384_verify(self.public_key.as_slice(), data.as_str().as_bytes(), decoded_signature.as_slice()) {
            Ok(())
        } else {
            Err(SessionError::Ecdsa)
        }
    }
}

/// The session a request was made in, where it carries one.
pub struct SessionOption<T> {
    inner: Option<T>,
}

impl<T> SessionOption<T> {
    /// The session held, if any.
    pub closed spec fn session(&self) -> Option<T> {
        self.inner
    }

    pub fn from_option(value: Option<T>) -> (option: SessionOption<T>)
        ensures
            option.session() == value,
    {
        SessionOption { inner: value }
    }

    /// The session held, if any.
    pub fn as_option(&self) -> (inner: &Option<T>)
        ensures
            *inner == self.session(),
    {
        &self.inner
    }

    /// The session, or a refusal for missing credentials where the request carries none.
    pub fn required(self) -> (session: Result<T, ErrorModel>)
        ensures
            self.session() matches Some(s) ==> session == Ok::<T, ErrorModel>(s),
            self.session() is None ==> (session matches Err(e) && e.error is MissingCredentials),
    {
        match self.inner {
            Some(s) => Ok(s),
            None => Err(ErrorModelKind::MissingCredentials.model()),
        }
    }
}

} // verus!
