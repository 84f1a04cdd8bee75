//! The persisted user record, modeled with plain values.

use vstd::prelude::*;

use crate::date::Date;
use crate::enumeration::Gender;

verus! {

/// One row of the user table. Timestamps are seconds since the epoch.
#[derive(Debug, Clone)]
pub struct Model {
    pub id: String,
    pub username: String,
    pub gender: Gender,
    pub account: String,
    pub password: String,
    pub mobile_phone: String,
    pub birthday: Date,
    pub enbaled: bool,
    pub created_date: u64,
    pub updated_date: u64,
    pub created_by: String,
    pub updated_by: Option<String>,
}

impl Model {
    /// An equal copy (the derived clone carries no specification).
    pub fn duplicate(&self) -> (r: Model)
        ensures
            r == *self,
    {
        Model {
            id: self.id.clone(),
            username: self.username.clone(),
            gender: self.gender,
            account: self.account.clone(),
            password: self.password.clone(),
            mobile_phone: self.mobile_phone.clone(),
            birthday: self.birthday,
            enbaled: self.enbaled,
            created_date: self.created_date,
            updated_date: self.updated_date,
            created_by: self.created_by.clone(),
            updated_by: match &self.updated_by {
                Option::Some(s) => Some(s.clone()),
                Option::None => None,
            },
        }
    }
}

} // verus!
