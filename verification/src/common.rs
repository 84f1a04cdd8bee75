//! Pagination: the page/size request fragment, the returned page envelope,
//! and the arithmetic that carves a page out of a total.

use vstd::prelude::*;

use vstd::arithmetic::div_mod::{lemma_fundamental_div_mod, lemma_mod_bound};
use vstd::arithmetic::mul::lemma_mul_inequality;

use crate::extract::{deserialize_number, get_field, opt_num, DecodeError, FieldValue, Validate};
use crate::validation::{build_validation_failure, ValidationFailure};

verus! {

pub const DEFAULT_PAGE_NO: u64 = 1;

pub const DEFAULT_PAGE_SIZE: u64 = 15;

pub fn default_page_no() -> (r: u64)
    ensures
        r == DEFAULT_PAGE_NO,
{
    DEFAULT_PAGE_NO
}

pub fn default_page_size() -> (r: u64)
    ensures
        r == DEFAULT_PAGE_SIZE,
{
    DEFAULT_PAGE_SIZE
}

/// The pagination request fragment: a 1-based page and a bounded size.
#[derive(Debug, Clone, Copy, PartialEq, Eq, Structural)]
pub struct BasePageDTO {
    pub page: u64,
    pub size: u64,
}

impl Validate for BasePageDTO {
    /// The declared rules: `page >= 1` and `1 <= size <= 1000`.
    open spec fn valid_spec(&self) -> bool {
        self.page >= 1 && 1 <= self.size <= 1000
    }

    open spec fn failure_field(&self) -> Seq<char> {
        if self.page < 1 {
            "page"@
        } else {
            "size"@
        }
    }

    open spec fn failure_message(&self) -> Seq<char> {
        if self.page < 1 {
            "page must be greater than 1"@
        } else {
            "size must be between 1 and 1000"@
        }
    }

    fn validate(&self) -> (r: Result<(), ValidationFailure>) {
        if self.page < 1 {
            Err(build_validation_failure("page", "page must be greater than 1"))
        } else if self.size < 1 || self.size > 1000 {
            Err(build_validation_failure("size", "size must be between 1 and 1000"))
        } else {
            Ok(())
        }
    }
}

impl BasePageDTO {
    /// Decode the fragment from named fields: `page` defaults to 1 and
    /// `size` to 15; a present field must read as a number.
    pub fn decode(fields: &Vec<(String, FieldValue)>) -> (r: Result<BasePageDTO, DecodeError>)
        ensures
            r is Ok <==> opt_num(fields@, "page"@, DEFAULT_PAGE_NO) is Some && opt_num(
                fields@,
                "size"@,
                DEFAULT_PAGE_SIZE,
            ) is Some,
            r matches Ok(dto) ==> Some(dto.page) == opt_num(fields@, "page"@, DEFAULT_PAGE_NO)
                && Some(dto.size) == opt_num(fields@, "size"@, DEFAULT_PAGE_SIZE),
            r matches Err(e) ==> if opt_num(fields@, "page"@, DEFAULT_PAGE_NO) is None {
                e matches DecodeError::BadNumber(f) && f@ == "page"@
            } else {
                e matches DecodeError::BadNumber(f) && f@ == "size"@
            },
    {
        let page = match get_field(fields, "page") {
            Option::None => default_page_no(),
            Option::Some(v) => match deserialize_number(&v) {
                Option::Some(n) => n,
                Option::None => {
                    return Err(DecodeError::BadNumber("page".to_owned()));
                },
            },
        };
        let size = match get_field(fields, "size") {
            Option::None => default_page_size(),
            Option::Some(v) => match deserialize_number(&v) {
                Option::Some(n) => n,
                Option::None => {
                    return Err(DecodeError::BadNumber("size".to_owned()));
                },
            },
        };
        Ok(BasePageDTO { page, size })
    }
}

/// One page of results, with the total row count and the request echoed.
#[derive(Debug)]
pub struct PageInfoData<T> {
    pub list: Vec<T>,
    pub total: u64,
    pub page: u64,
    pub size: u64,
}

impl<T> PageInfoData<T> {
    pub fn new(list: Vec<T>, total: u64, page: u64, size: u64) -> (r: Self)
        ensures
            r.list == list,
            r.total == total,
            r.page == page,
            r.size == size,
    {
        Self { list, total, page, size }
    }

    pub fn from_pagination(pagination: BasePageDTO, total: u64, list: Vec<T>) -> (r: Self)
        ensures
            r.list == list,
            r.total == total,
            r.page == pagination.page,
            r.size == pagination.size,
    {
        Self::new(list, total, pagination.page, pagination.size)
    }
}

/// The index of the first row of a page: `(page - 1) * size`, clamped to the
/// total.
pub open spec fn page_start(total: u64, page: u64, size: u64) -> int
    recommends
        page >= 1,
{
    if (page - 1) * size <= total {
        (page - 1) * size
    } else {
        total as int
    }
}

/// The number of rows on a page: a full page, or whatever remains.
pub open spec fn page_len(total: u64, page: u64, size: u64) -> int
    recommends
        page >= 1,
{
    if size <= total - page_start(total, page, size) {
        size as int
    } else {
        total - page_start(total, page, size)
    }
}

/// The half-open row range `[start, start + len)` of a page.
pub fn page_window(total: u64, page: u64, size: u64) -> (r: (u64, u64))
    requires
        page >= 1,
        size >= 1,
    ensures
        r.0 == page_start(total, page, size),
        r.1 == page_len(total, page, size),
        r.0 + r.1 <= total,
{
    let pages_before = page - 1;
    let q = total / size;
    proof {
        lemma_fundamental_div_mod(total as int, size as int);
        lemma_mod_bound(total as int, size as int);
        assert(total == size * q + total % size);
    }
    let start: u64 = if pages_before > q {
        proof {
            lemma_mul_inequality(q as int + 1, pages_before as int, size as int);
            assert((q + 1) * size == q * size + size) by (nonlinear_arith);
            assert(q * size == size * q) by (nonlinear_arith);
            assert((pages_before as int) * size > total);
        }
        total
    } else {
        proof {
            lemma_mul_inequality(pages_before as int, q as int, size as int);
            assert(q * size == size * q) by (nonlinear_arith);
            assert((pages_before as int) * size <= total);
        }
        pages_before * size
    };
    let len = if size <= total - start {
        size
    } else {
        total - start
    };
    (start, len)
}

} // verus!
