//! Calendar dates as plain values, read from `YYYY-MM-DD` literals.

use vstd::prelude::*;

use crate::strutil::{all_digits, dec_val, lemma_dec_val_bound, parse_digits, pow10};

verus! {

/// A calendar date, already checked against the calendar.
#[derive(Debug, Clone, Copy, PartialEq, Eq, Structural)]
pub struct Date {
    pub year: u64,
    pub month: u64,
    pub day: u64,
}

/// Years divisible by four, except centuries off the four-hundred cycle.
pub open spec fn is_leap_year(y: nat) -> bool {
    y % 4 == 0 && (y % 100 != 0 || y % 400 == 0)
}

pub open spec fn days_in_month(y: nat, m: nat) -> nat {
    if m == 2 {
        if is_leap_year(y) {
            29
        } else {
            28
        }
    } else if m == 4 || m == 6 || m == 9 || m == 11 {
        30
    } else {
        31
    }
}

pub open spec fn valid_ymd(y: nat, m: nat, d: nat) -> bool {
    1 <= m <= 12 && 1 <= d <= days_in_month(y, m)
}

/// The date a `YYYY-MM-DD` literal denotes: four, two and two digits, the
/// values on the calendar.
pub open spec fn date_of(s: Seq<char>) -> Option<Date> {
    if s.len() == 10 && s[4] == '-' && s[7] == '-' && all_digits(s.subrange(0, 4)) && all_digits(
        s.subrange(5, 7),
    ) && all_digits(s.subrange(8, 10)) {
        let y = dec_val(s.subrange(0, 4));
        let m = dec_val(s.subrange(5, 7));
        let d = dec_val(s.subrange(8, 10));
        if valid_ymd(y, m, d) {
            Option::Some(Date { year: y as u64, month: m as u64, day: d as u64 })
        } else {
            Option::None
        }
    } else {
        Option::None
    }
}

fn days_in_month_exec(y: u64, m: u64) -> (r: u64)
    ensures
        r == days_in_month(y as nat, m as nat),
{
    if m == 2 {
        if y % 4 == 0 && (y % 100 != 0 || y % 400 == 0) {
            29
        } else {
            28
        }
    } else if m == 4 || m == 6 || m == 9 || m == 11 {
        30
    } else {
        31
    }
}

/// Parse a `YYYY-MM-DD` literal into a checked date.
pub fn parse_date(s: &str) -> (r: Option<Date>)
    ensures
        r == date_of(s@),
{
    let n = s.unicode_len();
    if n != 10 {
        return None;
    }
    if s.get_char(4) != '-' || s.get_char(7) != '-' {
        return None;
    }
    let ys = s.substring_char(0, 4);
    let ms = s.substring_char(5, 7);
    let ds = s.substring_char(8, 10);
    proof {
        assert(pow10(4) == 10 * pow10(3) && pow10(3) == 10 * pow10(2) && pow10(2) == 10 * pow10(1)
            && pow10(1) == 10 * pow10(0) && pow10(0) == 1);
        assert(pow10(2) == 100);
        if all_digits(ys@) {
            lemma_dec_val_bound(ys@);
        }
        if all_digits(ms@) {
            lemma_dec_val_bound(ms@);
        }
        if all_digits(ds@) {
            lemma_dec_val_bound(ds@);
        }
    }
    let y = match parse_digits(ys) {
        Option::None => {
            return None;
        },
        Option::Some(v) => v,
    };
    let m = match parse_digits(ms) {
        Option::None => {
            return None;
        },
        Option::Some(v) => v,
    };
    let d = match parse_digits(ds) {
        Option::None => {
            return None;
        },
        Option::Some(v) => v,
    };
    if m < 1 || m > 12 || d < 1 || d > days_in_month_exec(y, m) {
        return None;
    }
    Some(Date { year: y, month: m, day: d })
}

} // verus!
