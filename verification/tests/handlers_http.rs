//! Tests of the handler cores: login against a stored bcrypt hash,
//! record preparation, and the paginated keyword search.

use auth_core::common::{page_window, BasePageDTO};
use auth_core::crypt::{encode_password, verify_password};
use auth_core::date::Date;
use auth_core::dto::{UserAddDTO, UserLoginDTO, UserUpdateDTO};
use auth_core::entity::Model;
use auth_core::enumeration::Gender;
use auth_core::error::{ApiError, ResponseErrorCode};
use auth_core::handlers::{
    apply_update, check_delete, filter_users, find_page_data, login, login_check, prepare_insert,
    select_users,
};
use auth_core::response::AppResponse;
use auth_core::token::{Jwt, JwtConfig};

fn service() -> Jwt {
    Jwt::new(JwtConfig {
        secret: "test-secret".to_owned(),
        lifetime_secs: 3600,
        audience: "aud-a".to_owned(),
        issuer: "iss-a".to_owned(),
    })
}

fn stored_user(password_hash: &str) -> Model {
    Model {
        id: "u-1".to_owned(),
        username: "alice1".to_owned(),
        gender: Gender::Female,
        account: "alice1".to_owned(),
        password: password_hash.to_owned(),
        mobile_phone: "13812345678".to_owned(),
        birthday: Date { year: 1990, month: 5, day: 17 },
        enbaled: true,
        created_date: 100,
        updated_date: 100,
        created_by: "system".to_owned(),
        updated_by: None,
    }
}

#[test]
fn login_with_correct_password_returns_token() {
    let hash = encode_password("secret123").unwrap();
    let user = stored_user(&hash);
    let dto = UserLoginDTO { username: "alice1".to_owned(), password: "secret123".to_owned() };
    let vo = login(&service(), &dto, Some(&user)).expect("correct password logs in");
    assert!(!vo.access_token.is_empty());
    // The token names the stored identity.
    let p = service().decode(&vo.access_token).unwrap();
    assert_eq!(p.id, "u-1");
    assert_eq!(p.username, "alice1");
}

#[test]
fn login_with_wrong_password_is_a_business_error() {
    let hash = encode_password("secret123").unwrap();
    let user = stored_user(&hash);
    let dto = UserLoginDTO { username: "alice1".to_owned(), password: "wrong-pass".to_owned() };
    let err = login(&service(), &dto, Some(&user)).unwrap_err();
    assert_eq!(err, ApiError::Biz(ResponseErrorCode::UserNameOrPasswordError));
    // Surfaced as the business-error envelope (its own code and bare
    // message, HTTP 400), not a server error.
    assert_eq!(err.status_code(), 400);
    let envelope: AppResponse<()> = AppResponse::for_error(&err);
    assert_eq!(envelope.code, 5003);
    assert_eq!(envelope.message, "invalid username or password");
}

#[test]
fn login_unknown_user_is_the_same_business_error() {
    let dto = UserLoginDTO { username: "nobody".to_owned(), password: "secret123".to_owned() };
    assert_eq!(
        login_check(&dto, None).unwrap_err(),
        ApiError::Biz(ResponseErrorCode::UserNameOrPasswordError)
    );
}

#[test]
fn password_round_trip() {
    let hash = encode_password("hunter2!").unwrap();
    assert!(verify_password("hunter2!", &hash).unwrap());
    assert!(!verify_password("hunter3!", &hash).unwrap());
    assert!(verify_password("x", "not-a-hash").is_err());
}

#[test]
fn prepare_insert_hashes_the_password() {
    let dto = UserAddDTO {
        username: "carol".to_owned(),
        gender: Gender::Female,
        account: "carol".to_owned(),
        password: "secret123".to_owned(),
        mobile_phone: "13812345678".to_owned(),
        birthday: Date { year: 2000, month: 1, day: 2 },
        enbaled: true,
        };
    let m = prepare_insert(dto, "id-9".to_owned(), "admin".to_owned(), 777).unwrap();
    assert_eq!(m.id, "id-9");
    assert_ne!(m.password, "secret123");
    assert!(verify_password("secret123", &m.password).unwrap());
    assert_eq!((m.created_date, m.updated_date), (777, 777));
    assert_eq!(m.created_by, "admin");
}

#[test]
fn apply_update_keeps_or_replaces_the_hash() {
    let hash = encode_password("oldpass1").unwrap();
    let user = stored_user(&hash);
    let base = UserAddDTO {
        username: "alice2".to_owned(),
        gender: Gender::Female,
        account: "alice1".to_owned(),
        password: String::new(),
        mobile_phone: "13812345678".to_owned(),
        birthday: Date { year: 1990, month: 5, day: 17 },
        enbaled: false,
    };
    let dto = UserUpdateDTO { id: "u-1".to_owned(), user: base.clone() };
    let m = apply_update(dto, Some(&user), 200).unwrap();
    assert_eq!(m.username, "alice2");
    assert_eq!(m.password, hash, "empty password keeps the stored hash");
    assert_eq!(m.updated_date, 200);
    assert_eq!(m.created_date, 100);

    let mut with_pw = base;
    with_pw.password = "newpass1".to_owned();
    let dto = UserUpdateDTO { id: "u-1".to_owned(), user: with_pw };
    let m = apply_update(dto, Some(&user), 201).unwrap();
    assert!(verify_password("newpass1", &m.password).unwrap());

    let dto = UserUpdateDTO {
        id: "u-404".to_owned(),
        user: UserAddDTO {
            username: "x2".to_owned(),
            gender: Gender::Male,
            account: "a".to_owned(),
            password: "p".to_owned(),
            mobile_phone: "m".to_owned(),
            birthday: Date { year: 1, month: 1, day: 1 },
            enbaled: true,
        },
    };
    assert_eq!(
        apply_update(dto, None, 0).unwrap_err(),
        ApiError::Biz(ResponseErrorCode::FindNotUser)
    );
}

#[test]
fn delete_requires_an_existing_row() {
    let hash = "h".to_owned();
    let user = stored_user(&hash);
    assert!(check_delete(Some(&user)).is_ok());
    assert_eq!(check_delete(None).unwrap_err(), ApiError::Biz(ResponseErrorCode::FindNotUser));
}

fn numbered_rows(n: u64) -> Vec<Model> {
    (0..n)
        .map(|i| {
            let mut m = stored_user("h");
            m.id = format!("row-{i:02}");
            m.username = format!("user-{i:02}");
            m
        })
        .collect()
}

#[test]
fn pagination_math() {
    // total=42, size=15: page 1 has 15 rows, page 3 has 12, page 4 has 0.
    assert_eq!(page_window(42, 1, 15), (0, 15));
    assert_eq!(page_window(42, 2, 15), (15, 15));
    assert_eq!(page_window(42, 3, 15), (30, 12));
    assert_eq!(page_window(42, 4, 15), (42, 0));
}

#[test]
fn find_page_slices_and_counts() {
    let rows = numbered_rows(42);
    let page = |p: u64| find_page_data(&rows, &None, BasePageDTO { page: p, size: 15 });
    let p1 = page(1);
    assert_eq!((p1.total, p1.list.len()), (42, 15));
    assert_eq!(p1.list[0].id, "row-00");
    let p3 = page(3);
    assert_eq!((p3.total, p3.list.len()), (42, 12));
    assert_eq!(p3.list[11].id, "row-41");
    let p4 = page(4);
    assert_eq!((p4.total, p4.list.len()), (42, 0));
    assert_eq!((p4.page, p4.size), (4, 15));
}

#[test]
fn keyword_filter_matches_username_or_id() {
    let mut rows = numbered_rows(3);
    rows[1].username = "zhang-wei".to_owned();
    let hits = filter_users(&rows, &Some("zhang".to_owned()));
    assert_eq!(hits.len(), 1);
    assert_eq!(hits[0].username, "zhang-wei");
    let hits = filter_users(&rows, &Some("row-0".to_owned()));
    assert_eq!(hits.len(), 3);
    let all = filter_users(&rows, &None);
    assert_eq!(all.len(), 3);
    let paged = find_page_data(&rows, &Some("zhang".to_owned()), BasePageDTO { page: 1, size: 15 });
    assert_eq!((paged.total, paged.list.len()), (1, 1));
}

#[test]
fn demo_listing_criterion() {
    let mut rows = numbered_rows(4);
    rows[0].gender = Gender::Male;
    rows[0].username = "张三".to_owned();
    rows[1].gender = Gender::Male;
    rows[1].username = "李四".to_owned();
    rows[2].gender = Gender::Male;
    rows[2].username = "张五".to_owned();
    rows[2].enbaled = false;
    let hits = select_users(&rows);
    assert_eq!(hits.len(), 1);
    assert_eq!(hits[0].username, "张三");
}
