//! Field-level validation rules and the failure they report.

use vstd::prelude::*;

use crate::strutil::{all_digits, is_digit};

verus! {

/// The first failing rule of a validation pass: its field and message.
#[derive(Debug, Clone, PartialEq, Eq)]
pub struct ValidationFailure {
    pub field: String,
    pub message: String,
}

pub fn build_validation_failure(field: &str, message: &str) -> (r: ValidationFailure)
    ensures
        r.field@ == field@,
        r.message@ == message@,
{
    ValidationFailure { field: field.to_owned(), message: message.to_owned() }
}

/// A mobile-phone number: eleven digits, a leading `1`, and a second digit
/// between `3` and `9`.
pub open spec fn is_mobile_spec(s: Seq<char>) -> bool {
    &&& s.len() == 11
    &&& all_digits(s)
    &&& s[0] == '1'
    &&& 51 <= s[1] as u32 <= 57
}

/// Validate a mobile-phone number.
pub fn is_mobile_phone(value: &str) -> (r: Result<(), ValidationFailure>)
    ensures
        r is Ok <==> is_mobile_spec(value@),
        r matches Err(f) ==> f.field@ == "mobile_phone"@ && f.message@ == "ivalid mobile phone"@,
{
    let n = value.unicode_len();
    let ok: bool = if n != 11 {
        false
    } else {
        let mut i: usize = 0;
        let mut digits = true;
        while i < 11
            invariant
                i <= 11,
                value@.len() == 11,
                digits == all_digits(value@.take(i as int)),
            decreases 11 - i,
        {
            let code = value.get_char(i) as u32;
            if code < 48 || code > 57 {
                digits = false;
                proof {
                    assert(!is_digit(value@[i as int]));
                    assert(value@.take(11) =~= value@);
                    assert(!all_digits(value@.take(11)));
                }
                i = 11;
            } else {
                proof {
                    assert(value@.take(i + 1).drop_last() =~= value@.take(i as int));
                    assert(value@.take(i + 1).last() == value@[i as int]);
                }
                i = i + 1;
            }
        }
        proof {
            if digits {
                assert(value@.take(11) =~= value@);
            }
        }
        if !digits {
            false
        } else {
            let c0 = value.get_char(0) as u32;
            let c1 = value.get_char(1) as u32;
            c0 == 49 && 51 <= c1 && c1 <= 57
        }
    };
    if ok {
        proof {
            assert(value@[0] as u32 == 49 ==> value@[0] == '1');
        }
        Ok(())
    } else {
        Err(build_validation_failure("mobile_phone", "ivalid mobile phone"))
    }
}

} // verus!
