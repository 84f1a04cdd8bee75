//! Request and response shapes declared by the handlers, each with its
//! decoding from named fields and its validation rules.

use vstd::prelude::*;

use crate::common::BasePageDTO;
use crate::date::{date_of, parse_date, Date};
use crate::enumeration::{gender_of, parse_gender, Gender};
use crate::extract::{field_of, get_field, DecodeError, FieldValue, Validate};
use crate::validation::{build_validation_failure, is_mobile_phone, is_mobile_spec,
    ValidationFailure};

verus! {

/// The string value of a field, when it is present and a string.
pub open spec fn str_val(fields: Seq<(String, FieldValue)>, name: Seq<char>) -> Option<Seq<char>> {
    match field_of(fields, name) {
        Option::Some(FieldValue::Str(s)) => Option::Some(s@),
        _ => Option::None,
    }
}

/// The gender value of a field, when present, a string, and a gender name.
pub open spec fn gender_val(fields: Seq<(String, FieldValue)>, name: Seq<char>) -> Option<Gender> {
    match str_val(fields, name) {
        Option::Some(s) => gender_of(s),
        Option::None => Option::None,
    }
}

/// The date value of a field, when present, a string, and a calendar date.
pub open spec fn date_val(fields: Seq<(String, FieldValue)>, name: Seq<char>) -> Option<Date> {
    match str_val(fields, name) {
        Option::Some(s) => date_of(s),
        Option::None => Option::None,
    }
}

/// The boolean value of a field, when it is present and a flag.
pub open spec fn flag_val(fields: Seq<(String, FieldValue)>, name: Seq<char>) -> Option<bool> {
    match field_of(fields, name) {
        Option::Some(FieldValue::Flag(b)) => Option::Some(b),
        _ => Option::None,
    }
}

/// The error a required string field reports: absent, or not a string.
pub open spec fn str_err_is(
    e: DecodeError,
    fields: Seq<(String, FieldValue)>,
    name: Seq<char>,
) -> bool {
    match field_of(fields, name) {
        Option::None => e matches DecodeError::Missing(f) && f@ == name,
        Option::Some(v) => !(v is Str) && (e matches DecodeError::WrongType(f) && f@ == name),
    }
}

/// The error a gender field reports: absent, not a string, or no gender name.
pub open spec fn gender_err_is(
    e: DecodeError,
    fields: Seq<(String, FieldValue)>,
    name: Seq<char>,
) -> bool {
    match field_of(fields, name) {
        Option::None => e matches DecodeError::Missing(f) && f@ == name,
        Option::Some(FieldValue::Str(s)) => gender_of(s@) is None && (e
            matches DecodeError::BadEnum(f) && f@ == name),
        Option::Some(_) => e matches DecodeError::WrongType(f) && f@ == name,
    }
}

/// The error a date field reports: absent, not a string, or not a date.
pub open spec fn date_err_is(
    e: DecodeError,
    fields: Seq<(String, FieldValue)>,
    name: Seq<char>,
) -> bool {
    match field_of(fields, name) {
        Option::None => e matches DecodeError::Missing(f) && f@ == name,
        Option::Some(FieldValue::Str(s)) => date_of(s@) is None && (e
            matches DecodeError::BadDate(f) && f@ == name),
        Option::Some(_) => e matches DecodeError::WrongType(f) && f@ == name,
    }
}

/// The error a flag field reports: absent, or not a flag.
pub open spec fn flag_err_is(
    e: DecodeError,
    fields: Seq<(String, FieldValue)>,
    name: Seq<char>,
) -> bool {
    match field_of(fields, name) {
        Option::None => e matches DecodeError::Missing(f) && f@ == name,
        Option::Some(v) => !(v is Flag) && (e matches DecodeError::WrongType(f) && f@ == name),
    }
}

/// A required string field.
fn req_str(fields: &Vec<(String, FieldValue)>, name: &str) -> (r: Result<String, DecodeError>)
    ensures
        r is Ok <==> str_val(fields@, name@) is Some,
        r matches Ok(s) ==> str_val(fields@, name@) == Some(s@),
        r matches Err(e) ==> str_err_is(e, fields@, name@),
{
    match get_field(fields, name) {
        Option::None => Err(DecodeError::Missing(name.to_owned())),
        Option::Some(FieldValue::Str(s)) => Ok(s),
        Option::Some(_) => Err(DecodeError::WrongType(name.to_owned())),
    }
}

/// A required gender field, decoded from its lowercase name.
fn req_gender(fields: &Vec<(String, FieldValue)>, name: &str) -> (r: Result<Gender, DecodeError>)
    ensures
        r is Ok <==> gender_val(fields@, name@) is Some,
        r matches Ok(g) ==> gender_val(fields@, name@) == Some(g),
        r matches Err(e) ==> gender_err_is(e, fields@, name@),
{
    match get_field(fields, name) {
        Option::None => Err(DecodeError::Missing(name.to_owned())),
        Option::Some(FieldValue::Str(s)) => match parse_gender(s.as_str()) {
            Option::Some(g) => Ok(g),
            Option::None => Err(DecodeError::BadEnum(name.to_owned())),
        },
        Option::Some(_) => Err(DecodeError::WrongType(name.to_owned())),
    }
}

/// A required date field, decoded from a `YYYY-MM-DD` literal.
fn req_date(fields: &Vec<(String, FieldValue)>, name: &str) -> (r: Result<Date, DecodeError>)
    ensures
        r is Ok <==> date_val(fields@, name@) is Some,
        r matches Ok(d) ==> date_val(fields@, name@) == Some(d),
        r matches Err(e) ==> date_err_is(e, fields@, name@),
{
    match get_field(fields, name) {
        Option::None => Err(DecodeError::Missing(name.to_owned())),
        Option::Some(FieldValue::Str(s)) => match parse_date(s.as_str()) {
            Option::Some(d) => Ok(d),
            Option::None => Err(DecodeError::BadDate(name.to_owned())),
        },
        Option::Some(_) => Err(DecodeError::WrongType(name.to_owned())),
    }
}

/// A required boolean field.
fn req_flag(fields: &Vec<(String, FieldValue)>, name: &str) -> (r: Result<bool, DecodeError>)
    ensures
        r is Ok <==> flag_val(fields@, name@) is Some,
        r matches Ok(b) ==> flag_val(fields@, name@) == Some(b),
        r matches Err(e) ==> flag_err_is(e, fields@, name@),
{
    match get_field(fields, name) {
        Option::None => Err(DecodeError::Missing(name.to_owned())),
        Option::Some(FieldValue::Flag(b)) => Ok(b),
        Option::Some(_) => Err(DecodeError::WrongType(name.to_owned())),
    }
}

/// Login credentials.
#[derive(Debug, Clone)]
pub struct UserLoginDTO {
    pub username: String,
    pub password: String,
}

impl UserLoginDTO {
    /// Decode from named fields; both fields are required strings, and the
    /// first failing field (username before password) is reported.
    pub fn decode(fields: &Vec<(String, FieldValue)>) -> (r: Result<UserLoginDTO, DecodeError>)
        ensures
            r is Ok <==> str_val(fields@, "username"@) is Some && str_val(fields@, "password"@)
                is Some,
            r matches Ok(d) ==> str_val(fields@, "username"@) == Some(d.username@) && str_val(
                fields@,
                "password"@,
            ) == Some(d.password@),
            r matches Err(e) ==> if str_val(fields@, "username"@) is None {
                str_err_is(e, fields@, "username"@)
            } else {
                str_err_is(e, fields@, "password"@)
            },
    {
        let username = match req_str(fields, "username") {
            Ok(s) => s,
            Err(e) => {
                return Err(e);
            },
        };
        let password = match req_str(fields, "password") {
            Ok(s) => s,
            Err(e) => {
                return Err(e);
            },
        };
        Ok(UserLoginDTO { username, password })
    }
}

impl Validate for UserLoginDTO {
    /// Username and password are each 6 to 20 characters.
    open spec fn valid_spec(&self) -> bool {
        6 <= self.username@.len() <= 20 && 6 <= self.password@.len() <= 20
    }

    open spec fn failure_field(&self) -> Seq<char> {
        if !(6 <= self.username@.len() <= 20) {
            "username"@
        } else {
            "password"@
        }
    }

    open spec fn failure_message(&self) -> Seq<char> {
        if !(6 <= self.username@.len() <= 20) {
            "账号长度在6-20个字符之间"@
        } else {
            "length must be between 6 and 20"@
        }
    }

    fn validate(&self) -> (r: Result<(), ValidationFailure>) {
        let ul = self.username.as_str().unicode_len();
        if ul < 6 || ul > 20 {
            return Err(build_validation_failure("username", "账号长度在6-20个字符之间"));
        }
        let pl = self.password.as_str().unicode_len();
        if pl < 6 || pl > 20 {
            return Err(build_validation_failure("password", "length must be between 6 and 20"));
        }
        Ok(())
    }
}

/// The successful login reply: the bearer token.
#[derive(Debug, Clone)]
pub struct LoginVO {
    pub access_token: String,
}

impl LoginVO {
    pub fn new(access_token: String) -> (r: Self)
        ensures
            r.access_token == access_token,
    {
        LoginVO { access_token }
    }
}

/// Fields of a user to create.
#[derive(Debug, Clone)]
pub struct UserAddDTO {
    pub username: String,
    pub gender: Gender,
    pub account: String,
    pub password: String,
    pub mobile_phone: String,
    pub birthday: Date,
    pub enbaled: bool,
}

/// The first decoding error of a user-creation body, in field order.
pub open spec fn add_first_error(fields: Seq<(String, FieldValue)>, e: DecodeError) -> bool {
    if str_val(fields, "username"@) is None {
        str_err_is(e, fields, "username"@)
    } else if gender_val(fields, "gender"@) is None {
        gender_err_is(e, fields, "gender"@)
    } else if str_val(fields, "account"@) is None {
        str_err_is(e, fields, "account"@)
    } else if str_val(fields, "password"@) is None {
        str_err_is(e, fields, "password"@)
    } else if str_val(fields, "mobile_phone"@) is None {
        str_err_is(e, fields, "mobile_phone"@)
    } else if date_val(fields, "birthday"@) is None {
        date_err_is(e, fields, "birthday"@)
    } else {
        flag_err_is(e, fields, "enbaled"@)
    }
}

/// All fields of a user-creation body decode.
pub open spec fn add_decodes(fields: Seq<(String, FieldValue)>) -> bool {
    &&& str_val(fields, "username"@) is Some
    &&& gender_val(fields, "gender"@) is Some
    &&& str_val(fields, "account"@) is Some
    &&& str_val(fields, "password"@) is Some
    &&& str_val(fields, "mobile_phone"@) is Some
    &&& date_val(fields, "birthday"@) is Some
    &&& flag_val(fields, "enbaled"@) is Some
}

impl UserAddDTO {
    /// Decode from named fields, reporting the first failing field in
    /// declaration order.
    pub fn decode(fields: &Vec<(String, FieldValue)>) -> (r: Result<UserAddDTO, DecodeError>)
        ensures
            r is Ok <==> add_decodes(fields@),
            r matches Ok(d) ==> str_val(fields@, "username"@) == Some(d.username@) && gender_val(
                fields@,
                "gender"@,
            ) == Some(d.gender) && str_val(fields@, "account"@) == Some(d.account@) && str_val(
                fields@,
                "password"@,
            ) == Some(d.password@) && str_val(fields@, "mobile_phone"@) == Some(d.mobile_phone@)
                && date_val(fields@, "birthday"@) == Some(d.birthday) && flag_val(
                fields@,
                "enbaled"@,
            ) == Some(d.enbaled),
            r matches Err(e) ==> add_first_error(fields@, e),
    {
        let username = match req_str(fields, "username") {
            Ok(s) => s,
            Err(e) => {
                return Err(e);
            },
        };
        let gender = match req_gender(fields, "gender") {
            Ok(g) => g,
            Err(e) => {
                return Err(e);
            },
        };
        let account = match req_str(fields, "account") {
            Ok(s) => s,
            Err(e) => {
                return Err(e);
            },
        };
        let password = match req_str(fields, "password") {
            Ok(s) => s,
            Err(e) => {
                return Err(e);
            },
        };
        let mobile_phone = match req_str(fields, "mobile_phone") {
            Ok(s) => s,
            Err(e) => {
                return Err(e);
            },
        };
        let birthday = match req_date(fields, "birthday") {
            Ok(d) => d,
            Err(e) => {
                return Err(e);
            },
        };
        let enbaled = match req_flag(fields, "enbaled") {
            Ok(b) => b,
            Err(e) => {
                return Err(e);
            },
        };
        Ok(UserAddDTO { username, gender, account, password, mobile_phone, birthday, enbaled })
    }
}

impl Validate for UserAddDTO {
    /// Username 2 to 20 chars, account 1 to 20, password 6 to 20, and a
    /// valid mobile-phone number.
    open spec fn valid_spec(&self) -> bool {
        &&& 2 <= self.username@.len() <= 20
        &&& 1 <= self.account@.len() <= 20
        &&& 6 <= self.password@.len() <= 20
        &&& is_mobile_spec(self.mobile_phone@)
    }

    open spec fn failure_field(&self) -> Seq<char> {
        if !(2 <= self.username@.len() <= 20) {
            "username"@
        } else if !(1 <= self.account@.len() <= 20) {
            "account"@
        } else if !(6 <= self.password@.len() <= 20) {
            "password"@
        } else {
            "mobile_phone"@
        }
    }

    open spec fn failure_message(&self) -> Seq<char> {
        if !(2 <= self.username@.len() <= 20) {
            "用户名长度在2-20个字符之间"@
        } else if !(1 <= self.account@.len() <= 20) {
            "账号长度在6-20个字符之间"@
        } else if !(6 <= self.password@.len() <= 20) {
            "length must be between 6 and 20"@
        } else {
            "ivalid mobile phone"@
        }
    }

    fn validate(&self) -> (r: Result<(), ValidationFailure>) {
        let ul = self.username.as_str().unicode_len();
        if ul < 2 || ul > 20 {
            return Err(build_validation_failure("username", "用户名长度在2-20个字符之间"));
        }
        let al = self.account.as_str().unicode_len();
        if al < 1 || al > 20 {
            return Err(build_validation_failure("account", "账号长度在6-20个字符之间"));
        }
        let pl = self.password.as_str().unicode_len();
        if pl < 6 || pl > 20 {
            return Err(build_validation_failure("password", "length must be between 6 and 20"));
        }
        match is_mobile_phone(self.mobile_phone.as_str()) {
            Ok(()) => Ok(()),
            Err(f) => Err(f),
        }
    }
}

/// Fields of a user to update: the target id, then the same shape a
/// creation takes.
#[derive(Debug, Clone)]
pub struct UserUpdateDTO {
    pub id: String,
    pub user: UserAddDTO,
}

impl UserUpdateDTO {
    /// Decode from named fields: the id, then the flattened user fields.
    pub fn decode(fields: &Vec<(String, FieldValue)>) -> (r: Result<UserUpdateDTO, DecodeError>)
        ensures
            r is Ok <==> str_val(fields@, "id"@) is Some && add_decodes(fields@),
            r matches Ok(d) ==> str_val(fields@, "id"@) == Some(d.id@) && str_val(
                fields@,
                "username"@,
            ) == Some(d.user.username@) && gender_val(fields@, "gender"@) == Some(d.user.gender)
                && str_val(fields@, "account"@) == Some(d.user.account@) && str_val(
                fields@,
                "password"@,
            ) == Some(d.user.password@) && str_val(fields@, "mobile_phone"@) == Some(
                d.user.mobile_phone@,
            ) && date_val(fields@, "birthday"@) == Some(d.user.birthday) && flag_val(
                fields@,
                "enbaled"@,
            ) == Some(d.user.enbaled),
            r matches Err(e) ==> if str_val(fields@, "id"@) is None {
                str_err_is(e, fields@, "id"@)
            } else {
                add_first_error(fields@, e)
            },
    {
        let id = match req_str(fields, "id") {
            Ok(s) => s,
            Err(e) => {
                return Err(e);
            },
        };
        let user = match UserAddDTO::decode(fields) {
            Ok(u) => u,
            Err(e) => {
                return Err(e);
            },
        };
        Ok(UserUpdateDTO { id, user })
    }
}

impl Validate for UserUpdateDTO {
    /// A non-empty id, and the nested user rules.
    open spec fn valid_spec(&self) -> bool {
        self.id@.len() >= 1 && self.user.valid_spec()
    }

    open spec fn failure_field(&self) -> Seq<char> {
        if self.id@.len() < 1 {
            "id"@
        } else {
            self.user.failure_field()
        }
    }

    open spec fn failure_message(&self) -> Seq<char> {
        if self.id@.len() < 1 {
            "id不能为空"@
        } else {
            self.user.failure_message()
        }
    }

    fn validate(&self) -> (r: Result<(), ValidationFailure>) {
        if self.id.as_str().unicode_len() < 1 {
            return Err(build_validation_failure("id", "id不能为空"));
        }
        self.user.validate()
    }
}

/// A paginated user search: an optional free-text keyword and the embedded
/// pagination fragment.
#[derive(Debug, Clone)]
pub struct UserQueryDTO {
    pub keyword: Option<String>,
    pub pagination: BasePageDTO,
}

impl UserQueryDTO {
    /// Decode from named fields: `keyword` optional, the pagination fields
    /// flattened beside it.
    pub fn decode(fields: &Vec<(String, FieldValue)>) -> (r: Result<UserQueryDTO, DecodeError>)
        ensures
            r matches Ok(d) ==> match field_of(fields@, "keyword"@) {
                Option::None => d.keyword is None,
                Option::Some(v) => v matches FieldValue::Str(s) && d.keyword matches Some(k)
                    && k@ == s@,
            },
            r matches Ok(d) ==> Some(d.pagination.page) == crate::extract::opt_num(
                fields@,
                "page"@,
                crate::common::DEFAULT_PAGE_NO,
            ) && Some(d.pagination.size) == crate::extract::opt_num(
                fields@,
                "size"@,
                crate::common::DEFAULT_PAGE_SIZE,
            ),
            r is Ok <==> (match field_of(fields@, "keyword"@) {
                Option::None => true,
                Option::Some(v) => v is Str,
            } && crate::extract::opt_num(fields@, "page"@, crate::common::DEFAULT_PAGE_NO) is Some
                && crate::extract::opt_num(
                fields@,
                "size"@,
                crate::common::DEFAULT_PAGE_SIZE,
            ) is Some),
            r matches Err(e) ==> match field_of(fields@, "keyword"@) {
                Option::Some(v) => !(v is Str) ==> (e matches DecodeError::WrongType(f) && f@
                    == "keyword"@),
                Option::None => e matches DecodeError::BadNumber(_),
            },
    {
        let keyword = match get_field(fields, "keyword") {
            Option::None => None,
            Option::Some(FieldValue::Str(s)) => Some(s),
            Option::Some(_) => {
                return Err(DecodeError::WrongType("keyword".to_owned()));
            },
        };
        let pagination = match BasePageDTO::decode(fields) {
            Ok(p) => p,
            Err(e) => {
                return Err(e);
            },
        };
        Ok(UserQueryDTO { keyword, pagination })
    }
}

impl Validate for UserQueryDTO {
    /// Only the embedded pagination fragment declares rules.
    open spec fn valid_spec(&self) -> bool {
        self.pagination.valid_spec()
    }

    open spec fn failure_field(&self) -> Seq<char> {
        self.pagination.failure_field()
    }

    open spec fn failure_message(&self) -> Seq<char> {
        self.pagination.failure_message()
    }

    fn validate(&self) -> (r: Result<(), ValidationFailure>) {
        self.pagination.validate()
    }
}

} // verus!
