//! Tests of the response envelope, the error taxonomy's status mapping,
//! the configuration defaults, and the authorization middleware.

use auth_core::config::{AppConfig, DatabaseConfig, ServerConfig};
use auth_core::latency::latency_parts;
use auth_core::error::{ApiError, ResponseErrorCode};
use auth_core::middleware::JWTAuth;
use auth_core::response::AppResponse;
use auth_core::server::Server;
use auth_core::subject::Principal;
use auth_core::token::{Jwt, JwtConfig};

#[test]
fn envelope_constructors() {
    let ok: AppResponse<u32> = AppResponse::ok(Some(7));
    assert_eq!((ok.code, ok.data, ok.message.as_str()), (200, Some(7), "success"));
    let none: AppResponse<u32> = AppResponse::ok_whitok_no_data();
    assert_eq!((none.code, none.data), (200, None));
    let fail: AppResponse<u32> = AppResponse::fail(5001, "user not found");
    assert_eq!((fail.code, fail.data, fail.message.as_str()), (5001, None, "user not found"));
    let fail: AppResponse<u32> = AppResponse::fail_with_u16(404, "gone");
    assert_eq!(fail.code, 404);
}

#[test]
fn error_status_codes() {
    assert_eq!(ApiError::NotFound.status_code(), 404);
    assert_eq!(ApiError::MethodNotAllowed.status_code(), 405);
    assert_eq!(ApiError::Biz(ResponseErrorCode::FindNotUser).status_code(), 400);
    assert_eq!(ApiError::DatabaseError("x".to_owned()).status_code(), 500);
    assert_eq!(ApiError::InternalServerError("x".to_owned()).status_code(), 500);
    assert_eq!(ApiError::Bcrpt("x".to_owned()).status_code(), 500);
    assert_eq!(ApiError::ParameterError("x".to_owned()).status_code(), 400);
    assert_eq!(ApiError::PathError("x".to_owned()).status_code(), 400);
    assert_eq!(ApiError::JsonError("x".to_owned()).status_code(), 400);
    assert_eq!(ApiError::ValidationError("x".to_owned()).status_code(), 400);
    assert_eq!(ApiError::Unauthenticated("x".to_owned()).status_code(), 401);
}

#[test]
fn business_codes_and_envelope() {
    assert_eq!(ResponseErrorCode::FindNotUser.code(), 5001);
    assert_eq!(ResponseErrorCode::DbPwdNotFind.code(), 5002);
    assert_eq!(ResponseErrorCode::UserNameOrPasswordError.code(), 5003);
    let e = ApiError::Biz(ResponseErrorCode::FindNotUser);
    let env: AppResponse<()> = AppResponse::fail_enum(&e);
    assert_eq!(env.code, 400);
    assert_eq!(env.message, "biz error:找不到用户");
    // At the HTTP boundary a business error carries its own code and bare
    // message, while any other error carries its status and description.
    let env: AppResponse<()> = AppResponse::for_error(&e);
    assert_eq!(env.code, 5001);
    assert_eq!(env.message, "找不到用户");
    let env: AppResponse<()> = AppResponse::for_error(&ApiError::NotFound);
    assert_eq!(env.code, 404);
    assert_eq!(env.message, "Not Found");
}

#[test]
fn config_defaults() {
    let server = ServerConfig { port: None };
    assert_eq!(server.port(), 3000);
    assert_eq!(ServerConfig { port: Some(8080) }.port(), 8080);
    let db = DatabaseConfig {
        host: None,
        port: None,
        username: None,
        password: None,
        database: None,
        schema: None,
        timeout: None,
    };
    assert_eq!(db.host(), "localhost");
    assert_eq!(db.port(), 5432);
    assert_eq!(db.username(), "postgres");
    assert_eq!(db.password(), "");
    assert_eq!(db.database(), "postgres");
    assert_eq!(db.schema(), "public");
    assert_eq!(db.timeout(), 5);
    let config = AppConfig::new(server, db);
    assert_eq!(config.server().port(), 3000);
    assert_eq!(config.database().port(), 5432);
    let server = Server::new(ServerConfig { port: Some(4000) });
    assert_eq!(server.port(), 4000);
}

#[test]
fn latency_units() {
    assert_eq!(latency_parts(5, 5000), (5, " ms"));
    assert_eq!(latency_parts(0, 750), (750, " ns"));
}

fn auth() -> JWTAuth {
    JWTAuth::new(Jwt::new(JwtConfig {
        secret: "test-secret".to_owned(),
        lifetime_secs: 3600,
        audience: "aud-a".to_owned(),
        issuer: "iss-a".to_owned(),
    }))
}

#[test]
fn authorize_requires_the_scheme_prefix() {
    let auth = auth();
    match auth.authorize(None, 0) {
        Err(ApiError::Unauthenticated(m)) => assert_eq!(m, ""),
        other => panic!("expected Unauthenticated, got {other:?}"),
    }
    match auth.authorize(Some("Bearer xyz"), 0) {
        Err(ApiError::Unauthenticated(m)) => {
            assert_eq!(m, "Authorization header Bear is missing")
        },
        other => panic!("expected Unauthenticated, got {other:?}"),
    }
}

#[test]
fn authorize_accepts_a_valid_bearer_token() {
    let auth = auth();
    let p = Principal {
        id: "u-1".to_owned(),
        username: "alice1".to_owned(),
        roles: vec!["admin".to_owned()],
        permissions: vec![],
    };
    let token = auth.jwt.encode_at(&p, "0123456789abcdefghij", 50);
    let header = format!("Bear {token}");
    let q = auth.authorize(Some(&header), 50).expect("valid token authorizes");
    assert_eq!(q.id, "u-1");
    // An expired token is unauthenticated, with the failure's text.
    match auth.authorize(Some(&header), 50 + 3601) {
        Err(ApiError::Unauthenticated(m)) => assert_eq!(m, "token expired"),
        other => panic!("expected Unauthenticated, got {other:?}"),
    }
}
