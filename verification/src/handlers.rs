//! The decision cores of the request handlers: everything they compute
//! between the storage collaborator's answers and the HTTP reply.

use vstd::prelude::*;

use crate::common::{page_len, page_start, page_window, BasePageDTO, PageInfoData};
use crate::crypt::{bcrypt_check_of, encode_password, verify_password};
use crate::dto::{LoginVO, UserAddDTO, UserLoginDTO, UserUpdateDTO};
use crate::entity::Model;
use crate::enumeration::Gender;
use crate::error::{ApiError, ResponseErrorCode};
use crate::strutil::{contains_seq, contains_sub, starts_with_str};
use crate::subject::{subject_of, PrincipalView, Principal};
use crate::token::{exp_at, issue_spec, Jwt};

verus! {

/// The principal a user record signs in as: its id and username, with the
/// role and permission placeholders empty.
pub open spec fn login_principal(u: Model) -> PrincipalView {
    PrincipalView {
        id: u.id@,
        username: u.username@,
        roles: Seq::empty(),
        permissions: Seq::empty(),
    }
}

/// Decide a login from the looked-up record: an absent record or a failed
/// password check are the same business error; a passing check yields the
/// principal.
pub fn login_check(dto: &UserLoginDTO, found: Option<&Model>) -> (r: Result<Principal, ApiError>)
    ensures
        found matches Some(u) && bcrypt_check_of(dto.password@, u.password@) ==> r is Ok,
        match r {
            Ok(p) => found matches Some(u) && bcrypt_check_of(dto.password@, u.password@) && p@
                == login_principal(*u),
            Err(e) => match found {
                Option::None => e == ApiError::Biz(ResponseErrorCode::UserNameOrPasswordError),
                Option::Some(u) => (!bcrypt_check_of(dto.password@, u.password@) && e
                    == ApiError::Biz(ResponseErrorCode::UserNameOrPasswordError)) || e
                    matches ApiError::Bcrpt(_),
            },
        },
{
    let user = match found {
        Option::None => {
            return Err(ApiError::Biz(ResponseErrorCode::UserNameOrPasswordError));
        },
        Option::Some(u) => u,
    };
    let password_match = match verify_password(dto.password.as_str(), user.password.as_str()) {
        Ok(b) => b,
        Err(e) => {
            return Err(e);
        },
    };
    if !password_match {
        return Err(ApiError::Biz(ResponseErrorCode::UserNameOrPasswordError));
    }
    let p = Principal {
        id: user.id.clone(),
        username: user.username.clone(),
        roles: Vec::new(),
        permissions: Vec::new(),
    };
    proof {
        assert(p@ =~= login_principal(*user));
    }
    Ok(p)
}

/// The whole login decision: check the credentials, then issue a token.
pub fn login(jwt: &Jwt, dto: &UserLoginDTO, found: Option<&Model>) -> (r: Result<LoginVO, ApiError>)
    ensures
        found matches Some(u) && bcrypt_check_of(dto.password@, u.password@) ==> r is Ok,
        found is None ==> r == Err::<LoginVO, ApiError>(
            ApiError::Biz(ResponseErrorCode::UserNameOrPasswordError),
        ),
        r matches Ok(vo) ==> found matches Some(u) && bcrypt_check_of(dto.password@, u.password@)
            && vo.access_token@.len() > 0 && (exists|jti: Seq<char>, iat: u64|
            vo.access_token@ == #[trigger] issue_spec(
                jwt@.secret,
                jti,
                subject_of(login_principal(*u)),
                jwt@.audience,
                jwt@.issuer,
                iat,
                exp_at(iat, jwt@.lifetime_secs),
            )),
        r matches Err(e) ==> match found {
            Option::None => e == ApiError::Biz(ResponseErrorCode::UserNameOrPasswordError),
            Option::Some(u) => (!bcrypt_check_of(dto.password@, u.password@) && e == ApiError::Biz(
                ResponseErrorCode::UserNameOrPasswordError,
            )) || e matches ApiError::Bcrpt(_),
        },
{
    let principal = match login_check(dto, found) {
        Ok(p) => p,
        Err(e) => {
            return Err(e);
        },
    };
    let access_token = jwt.encode(&principal);
    Ok(LoginVO::new(access_token))
}

/// Build the record a creation request inserts: the validated fields, the
/// generated id, the hashed password, and the bookkeeping columns.
pub fn prepare_insert(dto: UserAddDTO, id: String, created_by: String, now: u64) -> (r: Result<
    Model,
    ApiError,
>)
    ensures
        r matches Ok(m) ==> m.id@ == id@ && m.username@ == dto.username@ && m.gender == dto.gender
            && m.account@ == dto.account@ && bcrypt_check_of(dto.password@, m.password@)
            && m.mobile_phone@ == dto.mobile_phone@ && m.birthday == dto.birthday && m.enbaled
            == dto.enbaled && m.created_date == now && m.updated_date == now && m.created_by@
            == created_by@ && m.updated_by is None,
        r matches Err(e) ==> e matches ApiError::Bcrpt(_),
{
    let hashed = match encode_password(dto.password.as_str()) {
        Ok(h) => h,
        Err(e) => {
            return Err(e);
        },
    };
    Ok(
        Model {
            id,
            username: dto.username,
            gender: dto.gender,
            account: dto.account,
            password: hashed,
            mobile_phone: dto.mobile_phone,
            birthday: dto.birthday,
            enbaled: dto.enbaled,
            created_date: now,
            updated_date: now,
            created_by,
            updated_by: None,
        },
    )
}

/// Build the record an update request stores: the target must exist; an
/// empty password keeps the stored hash, any other is hashed anew.
pub fn apply_update(dto: UserUpdateDTO, existing: Option<&Model>, now: u64) -> (r: Result<
    Model,
    ApiError,
>)
    ensures
        existing is Some && dto.user.password@.len() == 0 ==> r is Ok,
        existing is None ==> r == Err::<Model, ApiError>(
            ApiError::Biz(ResponseErrorCode::FindNotUser),
        ),
        r matches Ok(m) ==> existing matches Some(u) && m.id@ == u.id@ && m.username@
            == dto.user.username@ && m.gender == dto.user.gender && m.account@ == dto.user.account@
            && m.mobile_phone@ == dto.user.mobile_phone@ && m.birthday == dto.user.birthday
            && m.enbaled == dto.user.enbaled && m.created_date == u.created_date && m.created_by@
            == u.created_by@ && m.updated_date == now && m.updated_by == u.updated_by && (if dto
            .user.password@.len() == 0 {
            m.password@ == u.password@
        } else {
            bcrypt_check_of(dto.user.password@, m.password@)
        }),
        r matches Err(e) ==> existing is None || e matches ApiError::Bcrpt(_),
{
    let user = match existing {
        Option::None => {
            return Err(ApiError::Biz(ResponseErrorCode::FindNotUser));
        },
        Option::Some(u) => u,
    };
    let password = if dto.user.password.as_str().unicode_len() == 0 {
        user.password.clone()
    } else {
        match encode_password(dto.user.password.as_str()) {
            Ok(h) => h,
            Err(e) => {
                return Err(e);
            },
        }
    };
    Ok(
        Model {
            id: user.id.clone(),
            username: dto.user.username,
            gender: dto.user.gender,
            account: dto.user.account,
            password,
            mobile_phone: dto.user.mobile_phone,
            birthday: dto.user.birthday,
            enbaled: dto.user.enbaled,
            created_date: user.created_date,
            updated_date: now,
            created_by: user.created_by.clone(),
            updated_by: match &user.updated_by {
                Option::Some(s) => Some(s.clone()),
                Option::None => None,
            },
        },
    )
}

/// A deletion proceeds only when the target exists.
pub fn check_delete(existing: Option<&Model>) -> (r: Result<(), ApiError>)
    ensures
        r is Ok <==> existing is Some,
        r matches Err(e) ==> e == ApiError::Biz(ResponseErrorCode::FindNotUser),
{
    match existing {
        Option::Some(_) => Ok(()),
        Option::None => Err(ApiError::Biz(ResponseErrorCode::FindNotUser)),
    }
}

/// A record matches a keyword when its username or id contains it.
pub open spec fn record_matches(m: Model, kw: Seq<char>) -> bool {
    contains_seq(m.username@, kw) || contains_seq(m.id@, kw)
}

/// The rows a keyword search keeps, in stored order.
pub open spec fn kw_filter(rows: Seq<Model>, keyword: Option<String>) -> Seq<Model> {
    match keyword {
        Option::None => rows,
        Option::Some(k) => rows.filter(|m: Model| record_matches(m, k@)),
    }
}

/// Keep the rows whose username or id contains the keyword.
pub fn filter_users(rows: &Vec<Model>, keyword: &Option<String>) -> (r: Vec<Model>)
    ensures
        r@ == kw_filter(rows@, *keyword),
{
    let k = match keyword {
        Option::None => {
            let mut all: Vec<Model> = Vec::new();
            let mut i: usize = 0;
            while i < rows.len()
                invariant
                    i <= rows@.len(),
                    all@ == rows@.take(i as int),
                decreases rows@.len() - i,
            {
                all.push(rows[i].duplicate());
                proof {
                    assert(rows@.take(i + 1) =~= rows@.take(i as int).push(rows@[i as int]));
                }
                i = i + 1;
            }
            proof {
                assert(rows@.take(rows@.len() as int) =~= rows@);
            }
            return all;
        },
        Option::Some(k) => k,
    };
    let ghost pred = |m: Model| record_matches(m, k@);
    let mut r: Vec<Model> = Vec::new();
    let mut i: usize = 0;
    proof {
        reveal(Seq::filter);
        assert(rows@.take(0).filter(pred) =~= Seq::<Model>::empty());
    }
    while i < rows.len()
        invariant
            i <= rows@.len(),
            pred == (|m: Model| record_matches(m, k@)),
            r@ == rows@.take(i as int).filter(pred),
        decreases rows@.len() - i,
    {
        let m = &rows[i];
        let keep = contains_sub(m.username.as_str(), k.as_str()) || contains_sub(
            m.id.as_str(),
            k.as_str(),
        );
        if keep {
            r.push(m.duplicate());
        }
        proof {
            reveal(Seq::filter);
            let t1 = rows@.take(i + 1);
            assert(t1.drop_last() =~= rows@.take(i as int));
            assert(t1.last() == rows@[i as int]);
            assert(t1.filter(pred) == if pred(rows@[i as int]) {
                rows@.take(i as int).filter(pred).push(rows@[i as int])
            } else {
                rows@.take(i as int).filter(pred)
            });
        }
        i = i + 1;
    }
    proof {
        assert(rows@.take(rows@.len() as int) =~= rows@);
    }
    r
}

/// Copy the rows of the half-open range `[start, start + count)`.
pub fn page_items(rows: &Vec<Model>, start: u64, count: u64) -> (r: Vec<Model>)
    requires
        start + count <= rows@.len(),
    ensures
        r@ == rows@.subrange(start as int, start as int + count as int),
{
    let n = rows.len();
    proof {
        assert(start <= n && count <= n);
    }
    let s: usize = start as usize;
    let c: usize = count as usize;
    let mut r: Vec<Model> = Vec::new();
    let mut i: usize = 0;
    while i < c
        invariant
            i <= c,
            n == rows@.len(),
            s == start,
            c == count,
            start + count <= rows@.len(),
            r@ == rows@.subrange(start as int, start as int + i as int),
        decreases c - i,
    {
        r.push(rows[s + i].duplicate());
        proof {
            assert(rows@.subrange(start as int, start as int + i + 1) =~= rows@.subrange(
                start as int,
                start as int + i as int,
            ).push(rows@[start as int + i as int]));
        }
        i = i + 1;
    }
    r
}

/// The whole page query: filter by the keyword, count the matches, and
/// return the requested page with the total and the request echoed.
pub fn find_page_data(
    rows: &Vec<Model>,
    keyword: &Option<String>,
    pagination: BasePageDTO,
) -> (r: PageInfoData<Model>)
    requires
        pagination.page >= 1,
        pagination.size >= 1,
    ensures
        r.total == kw_filter(rows@, *keyword).len(),
        r.page == pagination.page,
        r.size == pagination.size,
        r.list@ == kw_filter(rows@, *keyword).subrange(
            page_start(r.total, pagination.page, pagination.size),
            page_start(r.total, pagination.page, pagination.size) + page_len(
                r.total,
                pagination.page,
                pagination.size,
            ),
        ),
{
    let filtered = filter_users(rows, keyword);
    let total = filtered.len() as u64;
    let (start, count) = page_window(total, pagination.page, pagination.size);
    let list = page_items(&filtered, start, count);
    PageInfoData::from_pagination(pagination, total, list)
}

/// The demonstration listing's fixed criterion: enabled male users whose
/// username starts with the sample prefix.
pub open spec fn get_users_filter_spec(m: Model) -> bool {
    m.gender == Gender::Male && "张"@.is_prefix_of(m.username@) && m.enbaled
}

pub fn get_users_filter(m: &Model) -> (r: bool)
    ensures
        r == get_users_filter_spec(*m),
{
    let is_male = match m.gender {
        Gender::Male => true,
        Gender::Female => false,
    };
    let starts = starts_with_str(m.username.as_str(), "张");
    proof {
        assert(("张"@.len() <= m.username@.len() && m.username@.subrange(0, "张"@.len() as int)
            == "张"@) == "张"@.is_prefix_of(m.username@));
    }
    is_male && starts && m.enbaled
}

/// Keep the rows the demonstration criterion accepts.
pub fn select_users(rows: &Vec<Model>) -> (r: Vec<Model>)
    ensures
        r@ == rows@.filter(|m: Model| get_users_filter_spec(m)),
{
    let ghost pred = |m: Model| get_users_filter_spec(m);
    let mut r: Vec<Model> = Vec::new();
    let mut i: usize = 0;
    proof {
        reveal(Seq::filter);
        assert(rows@.take(0).filter(pred) =~= Seq::<Model>::empty());
    }
    while i < rows.len()
        invariant
            i <= rows@.len(),
            pred == (|m: Model| get_users_filter_spec(m)),
            r@ == rows@.take(i as int).filter(pred),
        decreases rows@.len() - i,
    {
        if get_users_filter(&rows[i]) {
            r.push(rows[i].duplicate());
        }
        proof {
            reveal(Seq::filter);
            let t1 = rows@.take(i + 1);
            assert(t1.drop_last() =~= rows@.take(i as int));
            assert(t1.last() == rows@[i as int]);
            assert(t1.filter(pred) == if pred(rows@[i as int]) {
                rows@.take(i as int).filter(pred).push(rows@[i as int])
            } else {
                rows@.take(i as int).filter(pred)
            });
        }
        i = i + 1;
    }
    proof {
        assert(rows@.take(rows@.len() as int) =~= rows@);
    }
    r
}

} // verus!
