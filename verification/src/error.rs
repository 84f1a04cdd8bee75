//! The error taxonomy and its mapping to HTTP status codes and
//! envelope messages.

use vstd::prelude::*;

verus! {

/// Business failure codes surfaced in the response envelope.
#[derive(Debug, Clone, Copy, PartialEq, Eq, Structural)]
pub enum ResponseErrorCode {
    FindNotUser,
    DbPwdNotFind,
    UserNameOrPasswordError,
}

impl ResponseErrorCode {
    pub open spec fn code_spec(self) -> u16 {
        match self {
            ResponseErrorCode::FindNotUser => 5001,
            ResponseErrorCode::DbPwdNotFind => 5002,
            ResponseErrorCode::UserNameOrPasswordError => 5003,
        }
    }

    pub fn code(&self) -> (r: u16)
        ensures
            r == self.code_spec(),
    {
        match self {
            ResponseErrorCode::FindNotUser => 5001,
            ResponseErrorCode::DbPwdNotFind => 5002,
            ResponseErrorCode::UserNameOrPasswordError => 5003,
        }
    }

    pub open spec fn message_spec(self) -> Seq<char> {
        match self {
            ResponseErrorCode::FindNotUser => "找不到用户"@,
            ResponseErrorCode::DbPwdNotFind => "数据库密码未找到"@,
            ResponseErrorCode::UserNameOrPasswordError => "invalid username or password"@,
        }
    }

    pub fn message(&self) -> (r: &'static str)
        ensures
            r@ == self.message_spec(),
    {
        match self {
            ResponseErrorCode::FindNotUser => "找不到用户",
            ResponseErrorCode::DbPwdNotFind => "数据库密码未找到",
            ResponseErrorCode::UserNameOrPasswordError => "invalid username or password",
        }
    }
}

/// Everything a request can fail with; recovered at the HTTP boundary and
/// mapped to a status code and an envelope.
#[derive(Debug, Clone, PartialEq, Eq)]
pub enum ApiError {
    NotFound,
    MethodNotAllowed,
    Biz(ResponseErrorCode),
    DatabaseError(String),
    InternalServerError(String),
    ParameterError(String),
    PathError(String),
    JsonError(String),
    ValidationError(String),
    Bcrpt(String),
    Unauthenticated(String),
}

impl ApiError {
    pub open spec fn status_code_spec(self) -> u16 {
        match self {
            ApiError::NotFound => 404,
            ApiError::MethodNotAllowed => 405,
            ApiError::InternalServerError(_) => 500,
            ApiError::DatabaseError(_) => 500,
            ApiError::Bcrpt(_) => 500,
            ApiError::ParameterError(_) => 400,
            ApiError::PathError(_) => 400,
            ApiError::JsonError(_) => 400,
            ApiError::ValidationError(_) => 400,
            ApiError::Biz(_) => 400,
            ApiError::Unauthenticated(_) => 401,
        }
    }

    /// The HTTP status this error is surfaced with.
    pub fn status_code(&self) -> (r: u16)
        ensures
            r == self.status_code_spec(),
    {
        match self {
            ApiError::NotFound => 404,
            ApiError::MethodNotAllowed => 405,
            ApiError::InternalServerError(_) => 500,
            ApiError::DatabaseError(_) => 500,
            ApiError::Bcrpt(_) => 500,
            ApiError::ParameterError(_) => 400,
            ApiError::PathError(_) => 400,
            ApiError::JsonError(_) => 400,
            ApiError::ValidationError(_) => 400,
            ApiError::Biz(_) => 400,
            ApiError::Unauthenticated(_) => 401,
        }
    }

    pub open spec fn describe_spec(self) -> Seq<char> {
        match self {
            ApiError::NotFound => "Not Found"@,
            ApiError::MethodNotAllowed => "method not allowed"@,
            ApiError::Biz(c) => "biz error:"@ + c.message_spec(),
            ApiError::DatabaseError(m) => "database exception:"@ + m@,
            ApiError::InternalServerError(m) => "Internal Server Error "@ + m@,
            ApiError::ParameterError(m) => "query param error:"@ + m@,
            ApiError::PathError(m) => "path param error:"@ + m@,
            ApiError::JsonError(m) => "body param error:"@ + m@,
            ApiError::ValidationError(m) => "validation error:"@ + m@,
            ApiError::Bcrpt(m) => "bcrypt error:"@ + m@,
            ApiError::Unauthenticated(m) => "unauthenticated:"@ + m@,
        }
    }

    /// The log/envelope text of this error.
    pub fn describe(&self) -> (r: String)
        ensures
            r@ == self.describe_spec(),
    {
        match self {
            ApiError::NotFound => "Not Found".to_owned(),
            ApiError::MethodNotAllowed => "method not allowed".to_owned(),
            ApiError::Biz(c) => {
                let mut s = "biz error:".to_owned();
                s.append(c.message());
                s
            },
            ApiError::DatabaseError(m) => {
                let mut s = "database exception:".to_owned();
                s.append(m.as_str());
                s
            },
            ApiError::InternalServerError(m) => {
                let mut s = "Internal Server Error ".to_owned();
                s.append(m.as_str());
                s
            },
            ApiError::ParameterError(m) => {
                let mut s = "query param error:".to_owned();
                s.append(m.as_str());
                s
            },
            ApiError::PathError(m) => {
                let mut s = "path param error:".to_owned();
                s.append(m.as_str());
                s
            },
            ApiError::JsonError(m) => {
                let mut s = "body param error:".to_owned();
                s.append(m.as_str());
                s
            },
            ApiError::ValidationError(m) => {
                let mut s = "validation error:".to_owned();
                s.append(m.as_str());
                s
            },
            ApiError::Bcrpt(m) => {
                let mut s = "bcrypt error:".to_owned();
                s.append(m.as_str());
                s
            },
            ApiError::Unauthenticated(m) => {
                let mut s = "unauthenticated:".to_owned();
                s.append(m.as_str());
                s
            },
        }
    }
}

} // verus!
