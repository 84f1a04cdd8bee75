//! Trusted primitives for the token service: base64url transport encoding,
//! HMAC-SHA256 signing, claims-payload serialization and field extraction,
//! and unique-id generation. Each function's body makes one outside call;
//! its contract states only what the outside crate's source shows.

use vstd::prelude::*;

use base64::Engine;

verus! {

/// The base64url (no padding) encoding of the UTF-8 bytes of a string.
pub uninterp spec fn b64_of(s: Seq<char>) -> Seq<char>;

/// The inverse transport decoding: base64url decode, then UTF-8 decode;
/// `None` when either step fails.
pub uninterp spec fn b64_dec_of(s: Seq<char>) -> Option<Seq<char>>;

/// The base64url encoding of the HMAC-SHA256 tag of a message under a key.
pub uninterp spec fn sig_of(secret: Seq<u8>, msg: Seq<char>) -> Seq<char>;

/// The JSON serialization of the two-field header object.
pub uninterp spec fn header_of(typ: Seq<char>, alg: Seq<char>) -> Seq<char>;

/// The JSON serialization of the six-claim payload object.
pub uninterp spec fn payload_of(
    jti: Seq<char>,
    sub: Seq<char>,
    aud: Seq<char>,
    iss: Seq<char>,
    iat: u64,
    exp: u64,
) -> Seq<char>;

/// The string value at a top-level key of a JSON object document;
/// `None` when the document does not parse or the key is absent or not a string.
pub uninterp spec fn json_str_of(doc: Seq<char>, key: Seq<char>) -> Option<Seq<char>>;

/// The unsigned-integer value at a top-level key of a JSON object document.
pub uninterp spec fn json_u64_of(doc: Seq<char>, key: Seq<char>) -> Option<u64>;

/// Relies on base64's `URL_SAFE_NO_PAD` engine (the one the token format
/// prescribes): encoding is a pure function of the input bytes, its output
/// uses only the url-safe alphabet (so never `.`), and decoding an encoded
/// string returns the input.
#[verifier::external_body]
pub(crate) fn b64url_encode(s: &str) -> (r: String)
    ensures
        r@ == b64_of(s@),
        crate::strutil::free_of(r@, '.'),
        b64_dec_of(r@) == Some(s@),
        s@.len() > 0 ==> r@.len() > 0,
{
    base64::engine::general_purpose::URL_SAFE_NO_PAD.encode(s.as_bytes())
}

/// Relies on base64's `URL_SAFE_NO_PAD` engine: decoding is a pure function
/// of the input string.
#[verifier::external_body]
pub(crate) fn b64url_decode(s: &str) -> (r: Option<String>)
    ensures
        match r {
            Some(d) => b64_dec_of(s@) == Some(d@),
            None => b64_dec_of(s@) is None,
        },
{
    match base64::engine::general_purpose::URL_SAFE_NO_PAD.decode(s.as_bytes()) {
        Ok(bytes) => String::from_utf8(bytes).ok(),
        Err(_) => None,
    }
}

/// Relies on `jsonwebtoken::crypto::sign` with HS256: it returns the
/// base64url encoding of the 32-byte HMAC-SHA256 tag (43 characters,
/// unpadded), never fails for an HMAC algorithm, and its output alphabet
/// has no `.`.
#[verifier::external_body]
pub(crate) fn hs256_sign(secret: &Vec<u8>, msg: &str) -> (r: String)
    ensures
        r@ == sig_of(secret@, msg@),
        crate::strutil::free_of(r@, '.'),
        r@.len() == 43,
{
    let key = jsonwebtoken::EncodingKey::from_secret(secret);
    match jsonwebtoken::crypto::sign(msg.as_bytes(), &key, jsonwebtoken::Algorithm::HS256) {
        Ok(s) => s,
        Err(_) => String::new(),
    }
}

/// Relies on `jsonwebtoken::crypto::verify` with HS256: it re-signs the
/// message and reports whether the given signature string equals the
/// recomputed one; it never fails for an HMAC algorithm.
#[verifier::external_body]
pub(crate) fn hs256_verify(secret: &Vec<u8>, sig: &str, msg: &str) -> (r: bool)
    ensures
        r == (sig@ == sig_of(secret@, msg@)),
{
    let key = jsonwebtoken::DecodingKey::from_secret(secret);
    jsonwebtoken::crypto::verify(sig, msg.as_bytes(), &key, jsonwebtoken::Algorithm::HS256)
        .unwrap_or(false)
}

/// Relies on `serde_json`: serializing a string-keyed map of string and
/// integer values cannot fail and is a pure function of the entries, and
/// reading a field of the serialized object returns the value that was put
/// in it.
#[verifier::external_body]
pub(crate) fn make_payload(
    jti: &str,
    sub: &str,
    aud: &str,
    iss: &str,
    iat: u64,
    exp: u64,
) -> (r: String)
    ensures
        r@ == payload_of(jti@, sub@, aud@, iss@, iat, exp),
        json_str_of(r@, "jti"@) == Some(jti@),
        json_str_of(r@, "sub"@) == Some(sub@),
        json_str_of(r@, "aud"@) == Some(aud@),
        json_str_of(r@, "iss"@) == Some(iss@),
        json_u64_of(r@, "iat"@) == Some(iat),
        json_u64_of(r@, "exp"@) == Some(exp),
        r@.len() > 0,
{
    let mut m = serde_json::Map::new();
    m.insert("jti".to_string(), serde_json::Value::from(jti));
    m.insert("sub".to_string(), serde_json::Value::from(sub));
    m.insert("aud".to_string(), serde_json::Value::from(aud));
    m.insert("iss".to_string(), serde_json::Value::from(iss));
    m.insert("iat".to_string(), serde_json::Value::from(iat));
    m.insert("exp".to_string(), serde_json::Value::from(exp));
    serde_json::to_string(&m).unwrap_or_default()
}

/// Relies on `serde_json`, as `make_payload` does: serializing the
/// string-keyed header map cannot fail and is a pure function of the
/// entries, and reading a field of the serialized object returns the value
/// that was put in it.
#[verifier::external_body]
pub(crate) fn make_header(typ: &str, alg: &str) -> (r: String)
    ensures
        r@ == header_of(typ@, alg@),
        json_str_of(r@, "typ"@) == Some(typ@),
        json_str_of(r@, "alg"@) == Some(alg@),
        r@.len() > 0,
{
    let mut m = serde_json::Map::new();
    m.insert("typ".to_string(), serde_json::Value::from(typ));
    m.insert("alg".to_string(), serde_json::Value::from(alg));
    match serde_json::to_string(&m) {
        Ok(s) => s,
        Err(_) => String::new(),
    }
}

/// Relies on `serde_json::from_str` and `Value::get`/`Value::as_str`: the
/// string field of a JSON object is a function of the document text alone.
#[verifier::external_body]
pub(crate) fn json_field_str(doc: &str, key: &str) -> (r: Option<String>)
    ensures
        match r {
            Some(v) => json_str_of(doc@, key@) == Some(v@),
            None => json_str_of(doc@, key@) is None,
        },
{
    serde_json::from_str::<serde_json::Value>(doc)
        .ok()
        .and_then(|v| v.get(key).and_then(|x| x.as_str()).map(|s| s.to_string()))
}

/// Relies on `serde_json::from_str` and `Value::get`/`Value::as_u64`: the
/// unsigned-integer field of a JSON object is a function of the document
/// text alone.
#[verifier::external_body]
pub(crate) fn json_field_u64(doc: &str, key: &str) -> (r: Option<u64>)
    ensures
        r == json_u64_of(doc@, key@),
{
    serde_json::from_str::<serde_json::Value>(doc)
        .ok()
        .and_then(|v| v.get(key).and_then(|x| x.as_u64()))
}

/// Relies on `xid::new`: a fresh, globally unique id whose string form is
/// always 20 characters. The generator reads the system clock and panics
/// if it is set before the epoch; no argument can exclude that state.
#[verifier::external_body]
pub(crate) fn fresh_jti() -> (r: String)
    ensures
        r@.len() == 20,
{
    xid::new().to_string()
}

/// Relies on `jsonwebtoken::get_current_timestamp`: seconds since the epoch.
/// Nothing can be promised of the clock's value; it panics if the system
/// clock is set before the epoch, a state no argument can exclude.
#[verifier::external_body]
pub(crate) fn current_timestamp() -> u64 {
    jsonwebtoken::get_current_timestamp()
}

} // verus!
