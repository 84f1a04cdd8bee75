//! Tests of the token service: issue, verify, expiry, tamper resistance,
//! audience and issuer pinning, and interoperability with the jsonwebtoken
//! crate that supplies the signing primitive.

use base64::Engine;

use auth_core::subject::{decode_subject, encode_subject, Principal};
use auth_core::token::{Jwt, JwtConfig, TokenError};

fn service() -> Jwt {
    Jwt::new(JwtConfig {
        secret: "test-secret".to_owned(),
        lifetime_secs: 3600,
        audience: "aud-a".to_owned(),
        issuer: "iss-a".to_owned(),
    })
}

fn sample_principal() -> Principal {
    Principal {
        id: "u-1".to_owned(),
        username: "alice".to_owned(),
        roles: vec!["admin".to_owned(), "user".to_owned()],
        permissions: vec!["read".to_owned()],
    }
}

const JTI: &str = "0123456789abcdefghij";

#[test]
fn round_trip_reproduces_principal() {
    let jwt = service();
    let p = sample_principal();
    let token = jwt.encode_at(&p, JTI, 1000);
    let q = jwt.verify_at(&token, 1000).expect("fresh token verifies");
    assert_eq!(q.id, "u-1");
    assert_eq!(q.username, "alice");
    assert_eq!(q.roles, vec!["admin".to_owned(), "user".to_owned()]);
    assert_eq!(q.permissions, vec!["read".to_owned()]);
}

#[test]
fn round_trip_empty_roles_quirk() {
    let jwt = service();
    let p = Principal {
        id: "u-2".to_owned(),
        username: "bobby1".to_owned(),
        roles: vec![],
        permissions: vec![],
    };
    let token = jwt.encode_at(&p, JTI, 5);
    let q = jwt.verify_at(&token, 5).expect("fresh token verifies");
    assert_eq!(q.id, "u-2");
    assert_eq!(q.username, "bobby1");
    // An empty sequence comes back as one empty-string element.
    assert_eq!(q.roles, vec![String::new()]);
    assert_eq!(q.permissions, vec![String::new()]);
}

#[test]
fn expiry_boundaries() {
    let jwt = service();
    let p = sample_principal();
    let iat = 1000u64;
    let token = jwt.encode_at(&p, JTI, iat);
    assert!(jwt.verify_at(&token, iat + 3600 - 1).is_ok());
    assert!(jwt.verify_at(&token, iat + 3600).is_ok());
    assert_eq!(jwt.verify_at(&token, iat + 3600 + 1), Err(TokenError::Expired));
    // The window's lower bound is enforced too.
    assert_eq!(jwt.verify_at(&token, iat - 1), Err(TokenError::Expired));
}

#[test]
fn tampered_signature_is_rejected() {
    let jwt = service();
    let p = sample_principal();
    let token = jwt.encode_at(&p, JTI, 1000);
    let sig_start = token.rfind('.').unwrap() + 1;
    for i in sig_start..token.len() {
        let mut bytes = token.as_bytes().to_vec();
        bytes[i] ^= 1;
        let tampered = String::from_utf8(bytes).unwrap();
        assert_eq!(
            jwt.verify_at(&tampered, 1000),
            Err(TokenError::SignatureInvalid),
            "flip at byte {i}"
        );
    }
}

#[test]
fn audience_and_issuer_pinning() {
    let jwt = service();
    let p = sample_principal();
    let token = jwt.encode_at(&p, JTI, 1000);
    let other_aud = Jwt::new(JwtConfig {
        secret: "test-secret".to_owned(),
        lifetime_secs: 3600,
        audience: "aud-b".to_owned(),
        issuer: "iss-a".to_owned(),
    });
    assert_eq!(other_aud.verify_at(&token, 1000), Err(TokenError::AudienceMismatch));
    let other_iss = Jwt::new(JwtConfig {
        secret: "test-secret".to_owned(),
        lifetime_secs: 3600,
        audience: "aud-a".to_owned(),
        issuer: "iss-b".to_owned(),
    });
    assert_eq!(other_iss.verify_at(&token, 1000), Err(TokenError::IssuerMismatch));
}

#[test]
fn wrong_secret_fails_signature() {
    let jwt = service();
    let p = sample_principal();
    let token = jwt.encode_at(&p, JTI, 1000);
    let other = Jwt::new(JwtConfig {
        secret: "other-secret".to_owned(),
        lifetime_secs: 3600,
        audience: "aud-a".to_owned(),
        issuer: "iss-a".to_owned(),
    });
    assert_eq!(other.verify_at(&token, 1000), Err(TokenError::SignatureInvalid));
}

#[test]
fn malformed_tokens_are_rejected() {
    let jwt = service();
    assert_eq!(jwt.verify_at("", 0), Err(TokenError::MalformedToken));
    assert_eq!(jwt.verify_at("abc", 0), Err(TokenError::MalformedToken));
    assert_eq!(jwt.verify_at("a.b", 0), Err(TokenError::MalformedToken));
    assert_eq!(jwt.verify_at("a.b.c.d", 0), Err(TokenError::MalformedToken));
    // Three segments but a header segment that does not decode.
    assert_eq!(jwt.verify_at("a.b.c", 0), Err(TokenError::MalformedToken));
}

fn b64(s: &str) -> String {
    base64::engine::general_purpose::URL_SAFE_NO_PAD.encode(s.as_bytes())
}

fn claims_json(aud: &str, iss: &str, iat: u64, exp: u64) -> String {
    let mut claims = serde_json::Map::new();
    claims.insert("jti".to_owned(), serde_json::Value::from("x"));
    claims.insert("sub".to_owned(), serde_json::Value::from("u-9:carol:r1:p1"));
    claims.insert("aud".to_owned(), serde_json::Value::from(aud));
    claims.insert("iss".to_owned(), serde_json::Value::from(iss));
    claims.insert("iat".to_owned(), serde_json::Value::from(iat));
    claims.insert("exp".to_owned(), serde_json::Value::from(exp));
    serde_json::to_string(&claims).unwrap()
}

fn sign_token(header_json: &str, payload_json: &str) -> String {
    let msg = format!("{}.{}", b64(header_json), b64(payload_json));
    let key = jsonwebtoken::EncodingKey::from_secret(b"test-secret");
    let sig =
        jsonwebtoken::crypto::sign(msg.as_bytes(), &key, jsonwebtoken::Algorithm::HS256).unwrap();
    format!("{msg}.{sig}")
}

#[test]
fn header_field_order_and_extras_do_not_matter() {
    // Any header JSON that declares HS256 is accepted, whatever the field
    // order and extra fields.
    let jwt = service();
    let payload = claims_json("aud-a", "iss-a", 100, 200);
    let token = sign_token("{\"x\":1,\"typ\":\"JWT\",\"alg\":\"HS256\"}", &payload);
    let q = jwt.verify_at(&token, 150).expect("reordered header verifies");
    assert_eq!(q.username, "carol");
}

#[test]
fn header_with_other_algorithm_is_rejected() {
    let jwt = service();
    let payload = claims_json("aud-a", "iss-a", 100, 200);
    let token = sign_token("{\"alg\":\"none\",\"typ\":\"JWT\"}", &payload);
    assert_eq!(jwt.verify_at(&token, 150), Err(TokenError::MalformedToken));
    let token = sign_token("{\"typ\":\"JWT\"}", &payload);
    assert_eq!(jwt.verify_at(&token, 150), Err(TokenError::MalformedToken));
    let token = sign_token("not json", &payload);
    assert_eq!(jwt.verify_at(&token, 150), Err(TokenError::MalformedToken));
}

#[test]
fn encode_uses_fresh_ids_and_current_time() {
    let jwt = service();
    let p = sample_principal();
    let t1 = jwt.encode(&p);
    let t2 = jwt.encode(&p);
    assert_ne!(t1, t2, "fresh jti on every issuance");
    assert!(jwt.decode(&t1).is_ok());
}

#[test]
fn subject_codec_round_trip() {
    let p = sample_principal();
    let s = encode_subject(&p);
    assert_eq!(s, "u-1:alice:admin,user:read");
    let q = decode_subject(&s).expect("four parts");
    assert_eq!(q.id, "u-1");
    assert_eq!(q.roles, vec!["admin".to_owned(), "user".to_owned()]);
    assert!(decode_subject("only:three:parts").is_none());
    // A colon inside a permission survives, because the fourth part keeps
    // the remainder.
    let q = decode_subject("a:b:r:p1:p2").expect("four parts");
    assert_eq!(q.permissions, vec!["p1:p2".to_owned()]);
}

#[test]
fn interop_with_jsonwebtoken_decode() {
    // A token this library issues passes jsonwebtoken's own validation
    // with the same secret, audience and issuer.
    let jwt = service();
    let p = sample_principal();
    let now = jsonwebtoken::get_current_timestamp();
    let token = jwt.encode_at(&p, JTI, now);
    let mut validation = jsonwebtoken::Validation::new(jsonwebtoken::Algorithm::HS256);
    validation.set_audience(&["aud-a"]);
    validation.set_issuer(&["iss-a"]);
    validation.set_required_spec_claims(&["jti", "sub", "aud", "iss", "iat", "exp"]);
    let key = jsonwebtoken::DecodingKey::from_secret(b"test-secret");
    let data = jsonwebtoken::decode::<serde_json::Value>(&token, &key, &validation)
        .expect("jsonwebtoken accepts the issued token");
    assert_eq!(
        data.claims.get("sub").and_then(|v| v.as_str()),
        Some("u-1:alice:admin,user:read")
    );
    assert_eq!(data.claims.get("jti").and_then(|v| v.as_str()), Some(JTI));
}

#[test]
fn interop_with_jsonwebtoken_encode() {
    // A default-header HS256 token issued by jsonwebtoken verifies here.
    let mut claims = serde_json::Map::new();
    claims.insert("jti".to_owned(), serde_json::Value::from("x"));
    claims.insert("sub".to_owned(), serde_json::Value::from("u-9:carol:r1:p1"));
    claims.insert("aud".to_owned(), serde_json::Value::from("aud-a"));
    claims.insert("iss".to_owned(), serde_json::Value::from("iss-a"));
    claims.insert("iat".to_owned(), serde_json::Value::from(100u64));
    claims.insert("exp".to_owned(), serde_json::Value::from(200u64));
    let key = jsonwebtoken::EncodingKey::from_secret(b"test-secret");
    let header = jsonwebtoken::Header::new(jsonwebtoken::Algorithm::HS256);
    let token = jsonwebtoken::encode(&header, &claims, &key).unwrap();
    let jwt = service();
    let q = jwt.verify_at(&token, 150).expect("foreign token verifies");
    assert_eq!(q.username, "carol");
    assert_eq!(jwt.verify_at(&token, 201), Err(TokenError::Expired));
}

#[test]
fn default_config_round_trips() {
    let jwt = Jwt::default();
    let p = sample_principal();
    let token = jwt.encode_at(&p, JTI, 42);
    assert!(jwt.verify_at(&token, 42).is_ok());
}
