//! Requests that only administrators may make.

use crate::errors::MyError;
use crate::views::users::AuthedUser;
use vstd::prelude::*;

verus! {

/// Lets an authenticated user through if they are an administrator.
pub fn ensure_admin(authed_user: AuthedUser) -> (outcome: Result<AuthedUser, MyError>)
    ensures
        outcome == if authed_user.user.is_admin {
            Ok::<AuthedUser, MyError>(authed_user)
        } else {
            Err::<AuthedUser, MyError>(MyError::NotAdmin)
        },
{
    if authed_user.user.is_admin {
        Ok(authed_user)
    } else {
        Err(MyError::NotAdmin)
    }
}

} // verus!
