//! The bearer-token authorization step that runs before protected handlers:
//! read the `Authorization` header, strip the scheme prefix, verify the
//! token, and hand the principal on.

use vstd::prelude::*;

use crate::error::ApiError;
use crate::strutil::starts_with_str;
use crate::subject::Principal;
use crate::token::{verify_spec, Jwt, TokenError};

verus! {

impl TokenError {
    pub open spec fn text_spec(self) -> Seq<char> {
        match self {
            TokenError::SignatureInvalid => "signature invalid"@,
            TokenError::Expired => "token expired"@,
            TokenError::AudienceMismatch => "audience mismatch"@,
            TokenError::IssuerMismatch => "issuer mismatch"@,
            TokenError::MalformedSubject => "malformed subject"@,
            TokenError::MalformedToken => "malformed token"@,
        }
    }

    /// The log text of a verification failure.
    pub fn text(&self) -> (r: &'static str)
        ensures
            r@ == self.text_spec(),
    {
        match self {
            TokenError::SignatureInvalid => "signature invalid",
            TokenError::Expired => "token expired",
            TokenError::AudienceMismatch => "audience mismatch",
            TokenError::IssuerMismatch => "issuer mismatch",
            TokenError::MalformedSubject => "malformed subject",
            TokenError::MalformedToken => "malformed token",
        }
    }
}

/// The nonstandard scheme prefix the clients of this service send.
pub open spec fn bearer_prefix() -> Seq<char> {
    "Bear "@
}

/// Whether a request is let through, and as whom.
pub ghost enum AuthOutcome {
    Granted(crate::subject::PrincipalView),
    Denied,
}

/// What authorizing a request with the given header text at time `now`
/// yields.
pub open spec fn authorize_outcome(
    cfg: crate::token::JwtView,
    header: Option<&str>,
    now: u64,
) -> AuthOutcome {
    match header {
        Option::None => AuthOutcome::Denied,
        Option::Some(h) => if !(bearer_prefix().len() <= h@.len() && h@.subrange(
            0,
            bearer_prefix().len() as int,
        ) == bearer_prefix()) {
            AuthOutcome::Denied
        } else {
            match verify_spec(cfg, h@.skip(bearer_prefix().len() as int), now) {
                Ok(p) => AuthOutcome::Granted(p),
                Err(_) => AuthOutcome::Denied,
            }
        },
    }
}

/// The middleware state: the token service it checks against.
pub struct JWTAuth {
    pub jwt: Jwt,
}

impl JWTAuth {
    pub fn new(jwt: Jwt) -> (r: Self)
        ensures
            r.jwt == jwt,
    {
        Self { jwt }
    }

    /// Authorize from the `Authorization` header value: absent or without
    /// the scheme prefix is unauthenticated; otherwise the rest of the
    /// header is verified as a token, and any verification failure is
    /// unauthenticated with that failure's text.
    pub fn authorize(&self, header: Option<&str>, now: u64) -> (r: Result<Principal, ApiError>)
        ensures
            match authorize_outcome(self.jwt@, header, now) {
                AuthOutcome::Granted(p) => r matches Ok(q) && q@ == p,
                AuthOutcome::Denied => r matches Err(e) && e
                    matches ApiError::Unauthenticated(_),
            },
            header is None ==> (r matches Err(e) && (e matches ApiError::Unauthenticated(m) && m@
                == ""@)),
            r matches Ok(p) ==> (header matches Some(h) && verify_spec(
                self.jwt@,
                h@.skip(bearer_prefix().len() as int),
                now,
            ) == Ok::<crate::subject::PrincipalView, TokenError>(p@)),
    {
        let h = match header {
            Option::None => {
                return Err(ApiError::Unauthenticated("".to_owned()));
            },
            Option::Some(h) => h,
        };
        if !starts_with_str(h, "Bear ") {
            return Err(
                ApiError::Unauthenticated("Authorization header Bear is missing".to_owned()),
            );
        }
        proof {
            reveal_strlit("Bear ");
        }
        let token = h.substring_char(5, h.unicode_len());
        proof {
            assert(token@ =~= h@.skip(bearer_prefix().len() as int));
        }
        match self.jwt.verify_at(token, now) {
            Ok(p) => Ok(p),
            Err(te) => Err(ApiError::Unauthenticated(te.text().to_owned())),
        }
    }
}

} // verus!
