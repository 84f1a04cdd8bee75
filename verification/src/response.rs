//! The uniform `{code, data, message}` response envelope.

use vstd::prelude::*;

use crate::error::ApiError;

verus! {

pub const SUCESSS_CODE: i32 = 200;

/// The envelope every HTTP reply is serialized into.
#[derive(Debug)]
pub struct AppResponse<T> {
    pub code: i32,
    pub data: Option<T>,
    pub message: String,
}

impl<T> AppResponse<T> {
    pub fn new(code: i32, data: Option<T>, message: String) -> (r: Self)
        ensures
            r.code == code,
            r.data == data,
            r.message == message,
    {
        Self { code, data, message }
    }

    pub fn ok(data: Option<T>) -> (r: Self)
        ensures
            r.code == 200,
            r.data == data,
            r.message@ == "success"@,
    {
        AppResponse::new(SUCESSS_CODE, data, "success".to_owned())
    }

    pub fn ok_whitok_no_data() -> (r: Self)
        ensures
            r.code == 200,
            r.data is None,
            r.message@ == "success"@,
    {
        AppResponse::ok(None)
    }

    pub fn fail(code: i32, message: &str) -> (r: Self)
        ensures
            r.code == code,
            r.data is None,
            r.message@ == message@,
    {
        AppResponse::new(code, None, message.to_owned())
    }

    pub fn fail_with_u16(code: u16, message: &str) -> (r: Self)
        ensures
            r.code == code as i32,
            r.data is None,
            r.message@ == message@,
    {
        let status_code = code as i32;
        AppResponse::fail(status_code, message)
    }

    /// The envelope of an error: its status code and its description.
    pub fn fail_enum(api_error: &ApiError) -> (r: Self)
        ensures
            r.code == api_error.status_code_spec() as i32,
            r.data is None,
            r.message@ == api_error.describe_spec(),
    {
        let text = api_error.describe();
        AppResponse::fail(api_error.status_code() as i32, text.as_str())
    }

    /// The envelope of an error at the HTTP boundary: a business error
    /// carries its own code and bare message; every other error carries its
    /// status code and its description.
    pub fn for_error(api_error: &ApiError) -> (r: Self)
        ensures
            r.data is None,
            match *api_error {
                ApiError::Biz(c) => r.code == c.code_spec() as i32 && r.message@
                    == c.message_spec(),
                _ => r.code == api_error.status_code_spec() as i32 && r.message@
                    == api_error.describe_spec(),
            },
    {
        match api_error {
            ApiError::Biz(c) => AppResponse::fail(c.code() as i32, c.message()),
            _ => AppResponse::fail_enum(api_error),
        }
    }
}

} // verus!
