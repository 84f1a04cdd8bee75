//! The token service: issues and verifies signed, time-bounded identity
//! tokens in the compact three-segment form `header.payload.signature`,
//! carrying the composite subject claim of `crate::subject`.

use vstd::prelude::*;

use crate::crypto::{
    b64_dec_of, b64_of, b64url_decode, b64url_encode, current_timestamp, fresh_jti, header_of,
    hs256_sign, hs256_verify, json_field_str, json_field_u64, json_str_of, json_u64_of,
    make_header, make_payload, payload_of, sig_of,
};
use crate::strutil::{free_of, lemma_split_free, lemma_split_prepend, split_all, split_chars,
    str_eq};
use crate::subject::{
    decode_subject, encode_subject, lemma_subject_round_trip, parse_subject, reconstructed,
    subject_of, subject_safe, Principal, PrincipalView,
};

verus! {

/// The distinguishable ways verification fails.
#[derive(Debug, Clone, Copy, PartialEq, Eq, Structural)]
pub enum TokenError {
    SignatureInvalid,
    Expired,
    AudienceMismatch,
    IssuerMismatch,
    MalformedSubject,
    MalformedToken,
}

/// The signed payload of a token.
#[derive(Debug, Clone)]
pub struct Claims {
    pub jti: String,
    pub sub: String,
    pub aud: String,
    pub iss: String,
    pub iat: u64,
    pub exp: u64,
}

/// Construction-time parameters of the token service.
#[derive(Debug)]
pub struct JwtConfig {
    pub secret: String,
    pub lifetime_secs: u64,
    pub audience: String,
    pub issuer: String,
}

impl Default for JwtConfig {
    fn default() -> (r: Self)
        ensures
            r.secret@ == "1234567890"@,
            r.lifetime_secs == 3600,
            r.audience@ == "aduience"@,
            r.issuer@ == "issuer"@,
    {
        JwtConfig {
            secret: "1234567890".to_owned(),
            lifetime_secs: 3600,
            audience: "aduience".to_owned(),
            issuer: "issuer".to_owned(),
        }
    }
}

/// The token service: a symmetric signing secret, the pinned audience and
/// issuer, and the lifetime of issued tokens. Fixed at construction.
pub struct Jwt {
    secret: Vec<u8>,
    lifetime_secs: u64,
    audience: String,
    issuer: String,
}

/// The mathematical model of a `Jwt`.
#[verifier::ext_equal]
pub ghost struct JwtView {
    pub secret: Seq<u8>,
    pub lifetime_secs: u64,
    pub audience: Seq<char>,
    pub issuer: Seq<char>,
}

impl View for Jwt {
    type V = JwtView;

    closed spec fn view(&self) -> JwtView {
        JwtView {
            secret: self.secret@,
            lifetime_secs: self.lifetime_secs,
            audience: self.audience@,
            issuer: self.issuer@,
        }
    }
}

/// The header every issued token carries.
pub open spec fn issued_header() -> Seq<char> {
    header_of("JWT"@, "HS256"@)
}

/// A decoded header is acceptable when it declares the HS256 algorithm;
/// field order and extra fields do not matter.
pub open spec fn header_ok(hdr: Seq<char>) -> bool {
    json_str_of(hdr, "alg"@) == Some("HS256"@)
}

/// Three dot-separated segments: a non-empty header, a non-empty payload,
/// and a 43-character signature.
pub open spec fn well_formed_token(token: Seq<char>) -> bool {
    let segs = split_chars(token, '.');
    &&& segs.len() == 3
    &&& segs[0].len() > 0
    &&& segs[1].len() > 0
    &&& segs[2].len() == 43
}

/// Expiry of a token issued at `iat`: `iat + lifetime`, saturating.
pub open spec fn exp_at(iat: u64, lifetime: u64) -> u64 {
    if iat + lifetime > u64::MAX {
        u64::MAX
    } else {
        (iat + lifetime) as u64
    }
}

/// The `header.payload` prefix of an issued token.
pub open spec fn issue_msg(
    jti: Seq<char>,
    sub: Seq<char>,
    aud: Seq<char>,
    iss: Seq<char>,
    iat: u64,
    exp: u64,
) -> Seq<char> {
    b64_of(issued_header()) + seq!['.'] + b64_of(payload_of(jti, sub, aud, iss, iat, exp))
}

/// The full issued token: message, dot, signature.
pub open spec fn issue_spec(
    secret: Seq<u8>,
    jti: Seq<char>,
    sub: Seq<char>,
    aud: Seq<char>,
    iss: Seq<char>,
    iat: u64,
    exp: u64,
) -> Seq<char> {
    issue_msg(jti, sub, aud, iss, iat, exp) + seq!['.'] + sig_of(
        secret,
        issue_msg(jti, sub, aud, iss, iat, exp),
    )
}

/// Validation of a decoded payload: all six claims present, audience and
/// issuer pinned, `now` inside `[iat, exp]`, subject well-formed.
pub open spec fn verify_claims_spec(cfg: JwtView, payload: Seq<char>, now: u64) -> Result<
    PrincipalView,
    TokenError,
> {
    match (
        json_str_of(payload, "jti"@),
        json_str_of(payload, "sub"@),
        json_str_of(payload, "aud"@),
        json_str_of(payload, "iss"@),
        json_u64_of(payload, "iat"@),
        json_u64_of(payload, "exp"@),
    ) {
        (Some(_jti), Some(sub), Some(aud), Some(iss), Some(iat), Some(exp)) => {
            if aud != cfg.audience {
                Err(TokenError::AudienceMismatch)
            } else if iss != cfg.issuer {
                Err(TokenError::IssuerMismatch)
            } else if now < iat || now > exp {
                Err(TokenError::Expired)
            } else {
                match parse_subject(sub) {
                    Option::None => Err(TokenError::MalformedSubject),
                    Option::Some(p) => Ok(p),
                }
            }
        },
        _ => Err(TokenError::MalformedToken),
    }
}

/// What verifying an arbitrary token string at time `now` returns.
pub open spec fn verify_spec(cfg: JwtView, token: Seq<char>, now: u64) -> Result<
    PrincipalView,
    TokenError,
> {
    let segs = split_chars(token, '.');
    if segs.len() != 3 {
        Err(TokenError::MalformedToken)
    } else {
        match b64_dec_of(segs[0]) {
            Option::None => Err(TokenError::MalformedToken),
            Option::Some(hdr) => if !header_ok(hdr) {
                Err(TokenError::MalformedToken)
            } else if segs[2] != sig_of(cfg.secret, segs[0] + seq!['.'] + segs[1]) {
                Err(TokenError::SignatureInvalid)
            } else {
                match b64_dec_of(segs[1]) {
                    Option::None => Err(TokenError::MalformedToken),
                    Option::Some(payload) => verify_claims_spec(cfg, payload, now),
                }
            },
        }
    }
}

/// What verifying a token issued for `p` with the given window returns.
pub open spec fn issued_outcome(p: PrincipalView, iat: u64, exp: u64, now: u64) -> Result<
    PrincipalView,
    TokenError,
> {
    if now < iat || now > exp {
        Err(TokenError::Expired)
    } else {
        match parse_subject(subject_of(p)) {
            Option::None => Err(TokenError::MalformedSubject),
            Option::Some(q) => Ok(q),
        }
    }
}

/// An exec result agrees with a spec-level verification outcome.
pub open spec fn agrees(r: Result<Principal, TokenError>, s: Result<
    PrincipalView,
    TokenError,
>) -> bool {
    match (r, s) {
        (Ok(p), Ok(q)) => p@ == q,
        (Err(a), Err(b)) => a == b,
        _ => false,
    }
}

/// Verifying a three-segment token whose header decodes and declares HS256
/// reduces to the signature comparison and then the claims checks.
pub proof fn lemma_verify_frame(
    cfg: JwtView,
    hb: Seq<char>,
    hdr: Seq<char>,
    pb: Seq<char>,
    sg: Seq<char>,
    payload: Seq<char>,
    now: u64,
)
    requires
        b64_dec_of(hb) == Some(hdr),
        header_ok(hdr),
        free_of(hb, '.'),
        free_of(pb, '.'),
        free_of(sg, '.'),
        b64_dec_of(pb) == Some(payload),
    ensures
        verify_spec(cfg, hb + seq!['.'] + pb + seq!['.'] + sg, now) == (if sg != sig_of(
            cfg.secret,
            hb + seq!['.'] + pb,
        ) {
            Err::<PrincipalView, TokenError>(TokenError::SignatureInvalid)
        } else {
            verify_claims_spec(cfg, payload, now)
        }),
{
    let token = hb + seq!['.'] + pb + seq!['.'] + sg;
    assert(token =~= hb + seq!['.'] + (pb + seq!['.'] + sg));
    lemma_split_prepend(hb, pb + seq!['.'] + sg, '.');
    lemma_split_prepend(pb, sg, '.');
    lemma_split_free(sg, '.');
    let segs = split_chars(token, '.');
    assert(segs =~= seq![hb] + (seq![pb] + seq![sg]));
    assert(segs.len() == 3);
    assert(segs[0] == hb && segs[1] == pb && segs[2] == sg);
    assert(segs[0] + seq!['.'] + segs[1] =~= hb + seq!['.'] + pb);
}

impl Jwt {
    /// Build the service from its configuration; the secret's UTF-8 bytes
    /// become the signing key.
    pub fn new(config: JwtConfig) -> (r: Self)
        ensures
            r@.secret == vstd::utf8::encode_utf8(config.secret@),
            r@.lifetime_secs == config.lifetime_secs,
            r@.audience == config.audience@,
            r@.issuer == config.issuer@,
    {
        let secret = config.secret.as_str().as_bytes_vec();
        Jwt {
            secret,
            lifetime_secs: config.lifetime_secs,
            audience: config.audience,
            issuer: config.issuer,
        }
    }

    /// The claims issued for a principal with the given token id and time.
    pub fn build_claims(&self, principal: &Principal, jti: &str, iat: u64) -> (c: Claims)
        ensures
            c.jti@ == jti@,
            c.sub@ == subject_of(principal@),
            c.aud@ == self@.audience,
            c.iss@ == self@.issuer,
            c.iat == iat,
            c.exp == exp_at(iat, self@.lifetime_secs),
    {
        let exp: u64 = if iat > u64::MAX - self.lifetime_secs {
            u64::MAX
        } else {
            iat + self.lifetime_secs
        };
        Claims {
            jti: jti.to_owned(),
            sub: encode_subject(principal),
            aud: self.audience.clone(),
            iss: self.issuer.clone(),
            iat,
            exp,
        }
    }

    /// Issue a token with an explicit token id and issue time.
    ///
    /// The contract carries the verification laws of issued tokens:
    /// - the token is exactly the signed three-segment encoding, and its
    ///   segments are non-empty (the signature exactly 43 characters);
    /// - verifying it at any time yields the issued outcome: the principal
    ///   reconstructed from the subject inside the window, `Expired` outside;
    /// - for a well-formed principal, verification inside the window
    ///   reproduces the principal (modulo the empty-csv quirk), and past the
    ///   window fails with `Expired`;
    /// - replacing the signature segment with any other dot-free string makes
    ///   verification fail with `SignatureInvalid`;
    /// - a service with the same secret but another audience rejects the
    ///   token with `AudienceMismatch`; with the same audience but another
    ///   issuer, with `IssuerMismatch`.
    pub fn encode_at(&self, principal: &Principal, jti: &str, iat: u64) -> (token: String)
        ensures
            token@ == issue_spec(
                self@.secret,
                jti@,
                subject_of(principal@),
                self@.audience,
                self@.issuer,
                iat,
                exp_at(iat, self@.lifetime_secs),
            ),
            well_formed_token(token@),
            forall|t: u64|
                #[trigger] verify_spec(self@, token@, t) == issued_outcome(
                    principal@,
                    iat,
                    exp_at(iat, self@.lifetime_secs),
                    t,
                ),
            subject_safe(principal@) ==> forall|t: u64|
                iat <= t <= exp_at(iat, self@.lifetime_secs) ==> #[trigger] verify_spec(
                    self@,
                    token@,
                    t,
                ) == Ok::<PrincipalView, TokenError>(reconstructed(principal@)),
            forall|t: u64|
                t > exp_at(iat, self@.lifetime_secs) ==> #[trigger] verify_spec(self@, token@, t)
                    == Err::<PrincipalView, TokenError>(TokenError::Expired),
            forall|s2: Seq<char>, t: u64|
                free_of(s2, '.') && s2 != sig_of(
                    self@.secret,
                    issue_msg(
                        jti@,
                        subject_of(principal@),
                        self@.audience,
                        self@.issuer,
                        iat,
                        exp_at(iat, self@.lifetime_secs),
                    ),
                ) ==> #[trigger] verify_spec(
                    self@,
                    issue_msg(
                        jti@,
                        subject_of(principal@),
                        self@.audience,
                        self@.issuer,
                        iat,
                        exp_at(iat, self@.lifetime_secs),
                    ) + seq!['.'] + s2,
                    t,
                ) == Err::<PrincipalView, TokenError>(TokenError::SignatureInvalid),
            forall|other: JwtView, t: u64|
                other.secret == self@.secret && other.audience != self@.audience
                    ==> #[trigger] verify_spec(other, token@, t) == Err::<
                    PrincipalView,
                    TokenError,
                >(TokenError::AudienceMismatch),
            forall|other: JwtView, t: u64|
                other.secret == self@.secret && other.audience == self@.audience && other.issuer
                    != self@.issuer ==> #[trigger] verify_spec(other, token@, t) == Err::<
                    PrincipalView,
                    TokenError,
                >(TokenError::IssuerMismatch),
    {
        let claims = self.build_claims(principal, jti, iat);
        let ghost exp = exp_at(iat, self@.lifetime_secs);
        let payload = make_payload(
            claims.jti.as_str(),
            claims.sub.as_str(),
            claims.aud.as_str(),
            claims.iss.as_str(),
            claims.iat,
            claims.exp,
        );
        let header = make_header("JWT", "HS256");
        let hb = b64url_encode(header.as_str());
        let pb = b64url_encode(payload.as_str());
        let ghost hdrv = header@;
        let ghost hbv = hb@;
        let ghost pbv = pb@;
        let ghost payloadv = payload@;
        let mut msg = hb;
        msg.append(".");
        msg.append(pb.as_str());
        proof {
            reveal_strlit(".");
            assert("."@ =~= seq!['.']);
            assert(msg@ =~= hbv + seq!['.'] + pbv);
        }
        let sig = hs256_sign(&self.secret, msg.as_str());
        let ghost sigv = sig@;
        let mut token = msg;
        token.append(".");
        token.append(sig.as_str());
        proof {
            let ghost m = issue_msg(
                jti@,
                subject_of(principal@),
                self@.audience,
                self@.issuer,
                iat,
                exp,
            );
            assert(m == hbv + seq!['.'] + pbv);
            assert(token@ =~= m + seq!['.'] + sigv);
            lemma_split_prepend(hbv, pbv + seq!['.'] + sigv, '.');
            lemma_split_prepend(pbv, sigv, '.');
            lemma_split_free(sigv, '.');
            assert(token@ =~= hbv + seq!['.'] + (pbv + seq!['.'] + sigv));
            assert(split_chars(token@, '.') =~= seq![hbv] + (seq![pbv] + seq![sigv]));
            assert(well_formed_token(token@));
            assert forall|t: u64| #[trigger] verify_spec(self@, token@, t) == issued_outcome(
                principal@,
                iat,
                exp,
                t,
            ) by {
                lemma_verify_frame(self@, hbv, hdrv, pbv, sigv, payloadv, t);
            }
            if subject_safe(principal@) {
                lemma_subject_round_trip(principal@);
            }
            assert forall|s2: Seq<char>, t: u64|
                free_of(s2, '.') && s2 != sig_of(self@.secret, m) implies #[trigger] verify_spec(
                self@,
                m + seq!['.'] + s2,
                t,
            ) == Err::<PrincipalView, TokenError>(TokenError::SignatureInvalid) by {
                lemma_verify_frame(self@, hbv, hdrv, pbv, s2, payloadv, t);
            }
            assert forall|other: JwtView, t: u64|
                other.secret == self@.secret && other.audience != self@.audience
                    implies #[trigger] verify_spec(other, token@, t) == Err::<
                PrincipalView,
                TokenError,
            >(TokenError::AudienceMismatch) by {
                lemma_verify_frame(other, hbv, hdrv, pbv, sigv, payloadv, t);
            }
            assert forall|other: JwtView, t: u64|
                other.secret == self@.secret && other.audience == self@.audience && other.issuer
                    != self@.issuer implies #[trigger] verify_spec(other, token@, t) == Err::<
                PrincipalView,
                TokenError,
            >(TokenError::IssuerMismatch) by {
                lemma_verify_frame(other, hbv, hdrv, pbv, sigv, payloadv, t);
            }
        }
        token
    }

    /// Issue a token for a principal now, with a fresh unique token id.
    pub fn encode(&self, principal: &Principal) -> (token: String)
        ensures
            exists|jti: Seq<char>, iat: u64|
                jti.len() == 20 && token@ == #[trigger] issue_spec(
                    self@.secret,
                    jti,
                    subject_of(principal@),
                    self@.audience,
                    self@.issuer,
                    iat,
                    exp_at(iat, self@.lifetime_secs),
                ),
    {
        let jti = fresh_jti();
        let iat = current_timestamp();
        let token = self.encode_at(principal, jti.as_str(), iat);
        proof {
            assert(jti@.len() == 20 && token@ == issue_spec(
                self@.secret,
                jti@,
                subject_of(principal@),
                self@.audience,
                self@.issuer,
                iat,
                exp_at(iat, self@.lifetime_secs),
            ));
        }
        token
    }

    /// Verify a token at an explicit time; the result is exactly
    /// `verify_spec` of the token text.
    pub fn verify_at(&self, token: &str, now: u64) -> (r: Result<Principal, TokenError>)
        ensures
            agrees(r, verify_spec(self@, token@, now)),
    {
        proof {
            reveal_strlit(".");
            assert("."@ =~= seq!['.']);
        }
        let segs = split_all(token, '.');
        let ghost sv = split_chars(token@, '.');
        if segs.len() != 3 {
            return Err(TokenError::MalformedToken);
        }
        proof {
            assert(sv[0] == segs[0]@ && sv[1] == segs[1]@ && sv[2] == segs[2]@);
        }
        let hdr = match b64url_decode(segs[0].as_str()) {
            Option::None => {
                return Err(TokenError::MalformedToken);
            },
            Option::Some(h) => h,
        };
        let alg_ok = match json_field_str(hdr.as_str(), "alg") {
            Option::None => false,
            Option::Some(a) => str_eq(a.as_str(), "HS256"),
        };
        if !alg_ok {
            return Err(TokenError::MalformedToken);
        }
        let mut msg = segs[0].clone();
        msg.append(".");
        msg.append(segs[1].as_str());
        proof {
            assert(msg@ =~= sv[0] + seq!['.'] + sv[1]);
        }
        if !hs256_verify(&self.secret, segs[2].as_str(), msg.as_str()) {
            return Err(TokenError::SignatureInvalid);
        }
        let payload = match b64url_decode(segs[1].as_str()) {
            Option::None => {
                return Err(TokenError::MalformedToken);
            },
            Option::Some(p) => p,
        };
        if json_field_str(payload.as_str(), "jti").is_none() {
            return Err(TokenError::MalformedToken);
        }
        let sub = match json_field_str(payload.as_str(), "sub") {
            Option::None => {
                return Err(TokenError::MalformedToken);
            },
            Option::Some(v) => v,
        };
        let aud = match json_field_str(payload.as_str(), "aud") {
            Option::None => {
                return Err(TokenError::MalformedToken);
            },
            Option::Some(v) => v,
        };
        let iss = match json_field_str(payload.as_str(), "iss") {
            Option::None => {
                return Err(TokenError::MalformedToken);
            },
            Option::Some(v) => v,
        };
        let iat = match json_field_u64(payload.as_str(), "iat") {
            Option::None => {
                return Err(TokenError::MalformedToken);
            },
            Option::Some(v) => v,
        };
        let exp = match json_field_u64(payload.as_str(), "exp") {
            Option::None => {
                return Err(TokenError::MalformedToken);
            },
            Option::Some(v) => v,
        };
        if !(aud == self.audience) {
            return Err(TokenError::AudienceMismatch);
        }
        if !(iss == self.issuer) {
            return Err(TokenError::IssuerMismatch);
        }
        if now < iat || now > exp {
            return Err(TokenError::Expired);
        }
        match decode_subject(sub.as_str()) {
            Option::None => Err(TokenError::MalformedSubject),
            Option::Some(p) => Ok(p),
        }
    }

    /// Verify a token against the current clock.
    pub fn decode(&self, token: &str) -> (r: Result<Principal, TokenError>)
        ensures
            exists|now: u64| agrees(r, #[trigger] verify_spec(self@, token@, now)),
    {
        let now = current_timestamp();
        let r = self.verify_at(token, now);
        proof {
            assert(agrees(r, verify_spec(self@, token@, now)));
        }
        r
    }
}

impl Default for Jwt {
    fn default() -> (r: Self)
        ensures
            r@.secret == vstd::utf8::encode_utf8("1234567890"@),
            r@.lifetime_secs == 3600,
            r@.audience == "aduience"@,
            r@.issuer == "issuer"@,
    {
        Jwt::new(JwtConfig::default())
    }
}

} // verus!
