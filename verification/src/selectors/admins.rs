//! A user together with what the administrators' table says of them.

use crate::models::{Admin, User};
use vstd::prelude::*;

verus! {

/// A user, told apart by whether an administrator record exists for them.
#[derive(Debug, PartialEq, Eq)]
pub enum UserData {
    SimpleUser(User),
    /// The user and whether they are a super user.
    AdminUser(User, bool),
}

impl UserData {
    /// Classifies `user` by the administrator record that was found for them,
    /// if any.
    pub fn from_user(user: User, admin: Option<Admin>) -> (data: Self)
        ensures
            data == match admin {
                None => UserData::SimpleUser(user),
                Some(record) => UserData::AdminUser(user, record.is_super_user),
            },
    {
        match admin {
            None => UserData::SimpleUser(user),
            Some(record) => UserData::AdminUser(user, record.is_super_user),
        }
    }
}

} // verus!
