//! The validated extraction pipeline: decode a request part into a typed
//! structure, then run its declared validation rules; decoding failures
//! suppress validation.

use vstd::prelude::*;

use crate::strutil::{all_digits, dec_val, digits_part, str_eq};
use crate::validation::ValidationFailure;

verus! {

/// A decoded request-part value: a string, a numeric literal, a flag, or a
/// value of no decodable kind (`Other`), which every reading rejects.
#[derive(Debug, Clone, PartialEq, Eq)]
pub enum FieldValue {
    Str(String),
    Num(u64),
    Flag(bool),
    Other,
}

impl FieldValue {
    /// An equal copy (the derived clone carries no specification).
    pub fn dup(&self) -> (r: FieldValue)
        ensures
            r == *self,
    {
        match self {
            FieldValue::Str(s) => FieldValue::Str(s.clone()),
            FieldValue::Num(n) => FieldValue::Num(*n),
            FieldValue::Flag(b) => FieldValue::Flag(*b),
            FieldValue::Other => FieldValue::Other,
        }
    }
}

/// Which part of the request a value was decoded from.
#[derive(Debug, Clone, Copy, PartialEq, Eq, Structural)]
pub enum RequestPart {
    Path,
    Query,
    Body,
}

/// Why decoding a request part into its target shape failed; each variant
/// names the offending field.
#[derive(Debug, Clone, PartialEq, Eq)]
pub enum DecodeError {
    Missing(String),
    WrongType(String),
    BadNumber(String),
    BadEnum(String),
    BadDate(String),
}

/// The first value under `name`, as decoded request producers present it.
pub open spec fn field_of(fields: Seq<(String, FieldValue)>, name: Seq<char>) -> Option<
    FieldValue,
>
    decreases fields.len(),
{
    if fields.len() == 0 {
        Option::None
    } else if fields[0].0@ == name {
        Option::Some(fields[0].1)
    } else {
        field_of(fields.skip(1), name)
    }
}

/// Look a field up by name.
pub fn get_field(fields: &Vec<(String, FieldValue)>, name: &str) -> (r: Option<FieldValue>)
    ensures
        r == field_of(fields@, name@),
{
    let mut i: usize = 0;
    proof {
        assert(fields@.skip(0) =~= fields@);
    }
    while i < fields.len()
        invariant
            i <= fields@.len(),
            field_of(fields@, name@) == field_of(fields@.skip(i as int), name@),
        decreases fields@.len() - i,
    {
        let pair = &fields[i];
        if str_eq(pair.0.as_str(), name) {
            proof {
                assert(fields@.skip(i as int)[0] == fields@[i as int]);
            }
            return Some(pair.1.dup());
        }
        proof {
            assert(fields@.skip(i as int)[0] == fields@[i as int]);
            assert(fields@.skip(i as int).skip(1) =~= fields@.skip(i as int + 1));
        }
        i = i + 1;
    }
    None
}

/// The numeric reading of a field value: a numeric literal as itself, a
/// string as `str::parse::<u64>` reads it (one optional leading `+`, then
/// digits), anything else rejected.
pub open spec fn num_spec(v: FieldValue) -> Option<u64> {
    match v {
        FieldValue::Num(n) => Option::Some(n),
        FieldValue::Str(s) => if digits_part(s@).len() > 0 && all_digits(digits_part(s@))
            && dec_val(digits_part(s@)) <= u64::MAX {
            Option::Some(dec_val(digits_part(s@)) as u64)
        } else {
            Option::None
        },
        FieldValue::Flag(_) => Option::None,
        FieldValue::Other => Option::None,
    }
}

/// Lenient numeric decoding: accept a numeric literal or a numeric string,
/// and fail (rather than default) on a string that does not parse.
pub fn deserialize_number(v: &FieldValue) -> (r: Option<u64>)
    ensures
        r == num_spec(*v),
{
    match v {
        FieldValue::Num(n) => Some(*n),
        FieldValue::Str(s) => crate::strutil::parse_u64(s.as_str()),
        FieldValue::Flag(_) => None,
        FieldValue::Other => None,
    }
}

/// A numeric field with a default: absent means the default, present must
/// read as a number.
pub open spec fn opt_num(
    fields: Seq<(String, FieldValue)>,
    name: Seq<char>,
    default: u64,
) -> Option<u64> {
    match field_of(fields, name) {
        Option::None => Option::Some(default),
        Option::Some(v) => num_spec(v),
    }
}

/// A type with declared validation rules.
pub trait Validate {
    /// All declared rules hold.
    spec fn valid_spec(&self) -> bool;

    /// The field of the first failing rule, in declaration order
    /// (meaningful when `valid_spec` does not hold).
    spec fn failure_field(&self) -> Seq<char>;

    /// The message of the first failing rule.
    spec fn failure_message(&self) -> Seq<char>;

    /// Run the rules; on failure report the first failing field and its
    /// message.
    fn validate(&self) -> (r: Result<(), ValidationFailure>)
        ensures
            r is Ok <==> self.valid_spec(),
            r matches Err(f) ==> f.field@ == self.failure_field() && f.message@
                == self.failure_message(),
    ;
}

/// An extraction rejection: the part failed to decode, or the decoded value
/// failed validation.
#[derive(Debug, Clone, PartialEq, Eq)]
pub enum ExtractError {
    Decoding(RequestPart, DecodeError),
    Validation(ValidationFailure),
}

/// Decode-then-validate: a decoding failure is reported with its part and
/// suppresses validation; a decoded value is handed on only if its rules
/// hold, and a rule failure names the first failing field and its message.
pub fn extract<T: Validate>(part: RequestPart, decoded: Result<T, DecodeError>) -> (r: Result<
    T,
    ExtractError,
>)
    ensures
        match decoded {
            Err(e) => r == Err::<T, ExtractError>(ExtractError::Decoding(part, e)),
            Ok(t) => if t.valid_spec() {
                r == Ok::<T, ExtractError>(t)
            } else {
                r matches Err(x) && x matches ExtractError::Validation(f) && f.field@
                    == t.failure_field() && f.message@ == t.failure_message()
            },
        },
{
    match decoded {
        Err(e) => Err(ExtractError::Decoding(part, e)),
        Ok(t) => match t.validate() {
            Ok(()) => Ok(t),
            Err(f) => Err(ExtractError::Validation(f)),
        },
    }
}

/// A validated value, as handlers receive it.
#[derive(Debug)]
pub struct Valid<T>(pub T);

impl<T> Valid<T> {
    pub fn get_validate(&self) -> (r: &T)
        ensures
            *r == self.0,
    {
        &self.0
    }
}

/// A validated value decoded from the query string.
#[derive(Debug)]
pub struct ValidQuery<T>(pub T);

/// A validated value decoded from path parameters.
#[derive(Debug)]
pub struct ValidPath<T>(pub T);

/// A validated value decoded from the request body.
#[derive(Debug)]
pub struct ValidJson<T>(pub T);

} // verus!
