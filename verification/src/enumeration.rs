//! The gender enumeration stored as a lowercase string.

use vstd::prelude::*;

use crate::strutil::str_eq;

verus! {

#[derive(Debug, Clone, Copy, PartialEq, Eq, Structural)]
pub enum Gender {
    Male,
    Female,
}

/// The gender a lowercase string names, if any.
pub open spec fn gender_of(s: Seq<char>) -> Option<Gender> {
    if s == "male"@ {
        Option::Some(Gender::Male)
    } else if s == "female"@ {
        Option::Some(Gender::Female)
    } else {
        Option::None
    }
}

impl Gender {
    pub open spec fn as_str_spec(self) -> Seq<char> {
        match self {
            Gender::Male => "male"@,
            Gender::Female => "female"@,
        }
    }

    pub fn as_str(&self) -> (r: &'static str)
        ensures
            r@ == self.as_str_spec(),
    {
        match self {
            Gender::Male => "male",
            Gender::Female => "female",
        }
    }
}

pub fn parse_gender(s: &str) -> (r: Option<Gender>)
    ensures
        r == gender_of(s@),
{
    if str_eq(s, "male") {
        Some(Gender::Male)
    } else if str_eq(s, "female") {
        Some(Gender::Female)
    } else {
        None
    }
}

} // verus!
