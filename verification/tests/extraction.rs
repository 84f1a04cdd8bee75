//! Tests of the extraction pipeline: decoding with defaults and numeric
//! leniency, validation boundaries, and the decode-then-validate order.

use auth_core::common::BasePageDTO;
use auth_core::date::{parse_date, Date};
use auth_core::dto::{UserAddDTO, UserLoginDTO, UserQueryDTO, UserUpdateDTO};
use auth_core::enumeration::{parse_gender, Gender};
use auth_core::extract::{
    deserialize_number, extract, DecodeError, ExtractError, FieldValue, RequestPart, Validate,
};
use auth_core::validation::is_mobile_phone;

fn fields(entries: Vec<(&str, FieldValue)>) -> Vec<(String, FieldValue)> {
    entries.into_iter().map(|(k, v)| (k.to_owned(), v)).collect()
}

fn s(v: &str) -> FieldValue {
    FieldValue::Str(v.to_owned())
}

#[test]
fn pagination_validation_boundaries() {
    assert_eq!(
        BasePageDTO { page: 0, size: 10 }.validate().unwrap_err().field,
        "page"
    );
    assert!(BasePageDTO { page: 1, size: 1000 }.validate().is_ok());
    assert_eq!(
        BasePageDTO { page: 1, size: 1001 }.validate().unwrap_err().field,
        "size"
    );
    assert_eq!(
        BasePageDTO { page: 1, size: 0 }.validate().unwrap_err().field,
        "size"
    );
}

#[test]
fn numeric_leniency() {
    // A numeric string decodes to the integer it spells.
    let f = fields(vec![("page", s("2"))]);
    let dto = BasePageDTO::decode(&f).expect("numeric string accepted");
    assert_eq!(dto.page, 2);
    assert_eq!(dto.size, 15);
    let f = fields(vec![("page", s("+2"))]);
    assert_eq!(BasePageDTO::decode(&f).unwrap().page, 2);
    // A non-numeric string fails decoding rather than defaulting.
    let f = fields(vec![("page", s("abc"))]);
    match BasePageDTO::decode(&f) {
        Err(DecodeError::BadNumber(field)) => assert_eq!(field, "page"),
        other => panic!("expected BadNumber(page), got {other:?}"),
    }
}

#[test]
fn pagination_defaults() {
    let f = fields(vec![]);
    let dto = BasePageDTO::decode(&f).unwrap();
    assert_eq!((dto.page, dto.size), (1, 15));
    let f = fields(vec![("page", FieldValue::Num(3)), ("size", s("100"))]);
    let dto = BasePageDTO::decode(&f).unwrap();
    assert_eq!((dto.page, dto.size), (3, 100));
}

#[test]
fn deserialize_number_cases() {
    assert_eq!(deserialize_number(&FieldValue::Num(7)), Some(7));
    assert_eq!(deserialize_number(&s("15")), Some(15));
    // str::parse::<u64> leniency: one optional leading plus.
    assert_eq!(deserialize_number(&s("+2")), Some(2));
    assert_eq!(deserialize_number(&s("+")), None);
    assert_eq!(deserialize_number(&s("++2")), None);
    assert_eq!(deserialize_number(&FieldValue::Other), None);
    assert_eq!(deserialize_number(&s("")), None);
    assert_eq!(deserialize_number(&s("1x")), None);
    assert_eq!(deserialize_number(&s("18446744073709551615")), Some(u64::MAX));
    assert_eq!(deserialize_number(&s("18446744073709551616")), None);
    assert_eq!(deserialize_number(&FieldValue::Flag(true)), None);
}

#[test]
fn extract_orders_decode_before_validation() {
    // A decoding failure is reported with its part and suppresses validation.
    let r: Result<BasePageDTO, ExtractError> = extract(
        RequestPart::Query,
        Err(DecodeError::BadNumber("page".to_owned())),
    );
    assert_eq!(
        r.unwrap_err(),
        ExtractError::Decoding(RequestPart::Query, DecodeError::BadNumber("page".to_owned()))
    );
    // A decoded value that breaks a rule is a validation failure.
    let r = extract(RequestPart::Body, Ok(BasePageDTO { page: 0, size: 10 }));
    match r.unwrap_err() {
        ExtractError::Validation(f) => assert_eq!(f.field, "page"),
        other => panic!("expected validation failure, got {other:?}"),
    }
    // A valid value passes through unchanged.
    let r = extract(RequestPart::Body, Ok(BasePageDTO { page: 2, size: 20 }));
    assert_eq!(r.unwrap(), BasePageDTO { page: 2, size: 20 });
}

#[test]
fn login_dto_decode_and_validate() {
    let f = fields(vec![("username", s("alice1")), ("password", s("secret"))]);
    let dto = UserLoginDTO::decode(&f).unwrap();
    assert_eq!(dto.username, "alice1");
    assert!(dto.validate().is_ok());

    let f = fields(vec![("password", s("secret"))]);
    match UserLoginDTO::decode(&f) {
        Err(DecodeError::Missing(field)) => assert_eq!(field, "username"),
        other => panic!("expected Missing(username), got {other:?}"),
    }

    let short = UserLoginDTO { username: "abc".to_owned(), password: "secret".to_owned() };
    assert_eq!(short.validate().unwrap_err().field, "username");
    let short = UserLoginDTO { username: "alice1".to_owned(), password: "abc".to_owned() };
    assert_eq!(short.validate().unwrap_err().field, "password");
}

fn add_fields() -> Vec<(String, FieldValue)> {
    fields(vec![
        ("username", s("张三")),
        ("gender", s("male")),
        ("account", s("zhangsan")),
        ("password", s("secret123")),
        ("mobile_phone", s("13812345678")),
        ("birthday", s("1990-05-17")),
        ("enbaled", FieldValue::Flag(true)),
    ])
}

#[test]
fn add_dto_decode_and_validate() {
    let dto = UserAddDTO::decode(&add_fields()).unwrap();
    assert_eq!(dto.gender, Gender::Male);
    assert_eq!(dto.birthday, Date { year: 1990, month: 5, day: 17 });
    assert!(dto.enbaled);
    assert!(dto.validate().is_ok());

    let mut f = add_fields();
    f.retain(|(k, _)| k != "gender");
    f.push(("gender".to_owned(), s("other")));
    match UserAddDTO::decode(&f) {
        Err(DecodeError::BadEnum(field)) => assert_eq!(field, "gender"),
        other => panic!("expected BadEnum(gender), got {other:?}"),
    }

    let mut f = add_fields();
    f.retain(|(k, _)| k != "birthday");
    f.push(("birthday".to_owned(), s("1990-13-01")));
    match UserAddDTO::decode(&f) {
        Err(DecodeError::BadDate(field)) => assert_eq!(field, "birthday"),
        other => panic!("expected BadDate(birthday), got {other:?}"),
    }

    let mut dto = UserAddDTO::decode(&add_fields()).unwrap();
    dto.username = "x".to_owned();
    assert_eq!(dto.validate().unwrap_err().field, "username");
    let mut dto = UserAddDTO::decode(&add_fields()).unwrap();
    dto.mobile_phone = "12812345678".to_owned();
    assert_eq!(dto.validate().unwrap_err().field, "mobile_phone");
}

#[test]
fn update_dto_requires_id() {
    let mut f = add_fields();
    f.push(("id".to_owned(), s("u-1")));
    let dto = UserUpdateDTO::decode(&f).unwrap();
    assert_eq!(dto.id, "u-1");
    assert!(dto.validate().is_ok());

    match UserUpdateDTO::decode(&add_fields()) {
        Err(DecodeError::Missing(field)) => assert_eq!(field, "id"),
        other => panic!("expected Missing(id), got {other:?}"),
    }

    let mut dto = UserUpdateDTO::decode(&f).unwrap();
    dto.id = String::new();
    assert_eq!(dto.validate().unwrap_err().field, "id");
}

#[test]
fn query_dto_embeds_pagination() {
    let f = fields(vec![("keyword", s("zhang")), ("page", s("2")), ("size", s("30"))]);
    let dto = UserQueryDTO::decode(&f).unwrap();
    assert_eq!(dto.keyword.as_deref(), Some("zhang"));
    assert_eq!((dto.pagination.page, dto.pagination.size), (2, 30));
    assert!(dto.validate().is_ok());

    let f = fields(vec![]);
    let dto = UserQueryDTO::decode(&f).unwrap();
    assert!(dto.keyword.is_none());
    assert_eq!((dto.pagination.page, dto.pagination.size), (1, 15));

    let f = fields(vec![("size", s("1001"))]);
    let dto = UserQueryDTO::decode(&f).unwrap();
    assert_eq!(dto.validate().unwrap_err().field, "size");
}

#[test]
fn date_parsing() {
    assert_eq!(parse_date("2024-02-29"), Some(Date { year: 2024, month: 2, day: 29 }));
    assert_eq!(parse_date("2023-02-29"), None);
    assert_eq!(parse_date("2000-02-29"), Some(Date { year: 2000, month: 2, day: 29 }));
    assert_eq!(parse_date("1900-02-29"), None);
    assert_eq!(parse_date("2023-13-01"), None);
    assert_eq!(parse_date("2023-00-10"), None);
    assert_eq!(parse_date("2023-04-31"), None);
    assert_eq!(parse_date("2023-4-01"), None);
    assert_eq!(parse_date("20230401"), None);
    assert_eq!(parse_date("2023-04-30"), Some(Date { year: 2023, month: 4, day: 30 }));
}

#[test]
fn undecodable_values_are_present_but_rejected() {
    // A value of no decodable kind fails the field it stands under rather
    // than falling back to a default.
    let f = fields(vec![("page", FieldValue::Other)]);
    match BasePageDTO::decode(&f) {
        Err(DecodeError::BadNumber(field)) => assert_eq!(field, "page"),
        other => panic!("expected BadNumber(page), got {other:?}"),
    }
    let f = fields(vec![("username", FieldValue::Other), ("password", s("secret"))]);
    match UserLoginDTO::decode(&f) {
        Err(DecodeError::WrongType(field)) => assert_eq!(field, "username"),
        other => panic!("expected WrongType(username), got {other:?}"),
    }
}

#[test]
fn gender_parsing() {
    assert_eq!(parse_gender("male"), Some(Gender::Male));
    assert_eq!(parse_gender("female"), Some(Gender::Female));
    assert_eq!(parse_gender("Male"), None);
    assert_eq!(parse_gender(""), None);
}

#[test]
fn mobile_phone_rule() {
    assert!(is_mobile_phone("13812345678").is_ok());
    assert!(is_mobile_phone("19912345678").is_ok());
    assert!(is_mobile_phone("12812345678").is_err());
    assert!(is_mobile_phone("1381234567").is_err());
    assert!(is_mobile_phone("138123456789").is_err());
    assert!(is_mobile_phone("1381234567a").is_err());
    let f = is_mobile_phone("abc").unwrap_err();
    assert_eq!(f.message, "ivalid mobile phone");
}
