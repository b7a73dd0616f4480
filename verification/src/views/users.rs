//! Signing up, logging in, and finding the user behind a bearer token.

use crate::argon2_password_hasher::{argon2_verdict, validate_password};
use crate::auth::actor::CreateToken;
use crate::auth::simple_jwt_helper::TokenError;
use crate::errors::MyError;
use crate::models::User;
use vstd::prelude::*;
use vstd::utf8::encode_utf8;

verus! {

/// What the API shows of a user.
#[derive(Clone, Debug, PartialEq, Eq)]
pub struct UserData {
    pub id: i32,
    pub username: String,
    pub is_admin: bool,
}

/// The body of a request to sign up.
#[derive(Clone, Debug, PartialEq, Eq)]
pub struct SignUpInput {
    pub username: String,
    pub password: String,
}

/// The body of the reply to a successful log-in.
#[derive(Clone, Debug, PartialEq, Eq)]
pub struct Token {
    pub token: String,
}

/// The body of a request to log in.
#[derive(Clone, Debug, PartialEq, Eq)]
pub struct LogInInput {
    pub username: String,
    pub password: String,
}

/// The user that a bearer token was found to belong to.
#[derive(Debug, PartialEq, Eq)]
pub struct AuthedUser {
    pub user_id: i32,
    pub user: User,
}

/// The body of a request to change one's password.
#[derive(Clone, Debug, PartialEq, Eq)]
pub struct UserChangePasswordInput {
    pub new_password: String,
}

impl UserData {
    /// What the API shows of `user`.
    pub fn from_user(user: User) -> (data: Self)
        ensures
            data.id == user.id,
            data.username == user.username,
            data.is_admin == user.is_admin,
    {
        UserData { id: user.id, username: user.username, is_admin: user.is_admin }
    }
}

/// The user that a log-in names, or the error for a name that nobody has.
pub fn get_user_by_username(found: Option<User>) -> (outcome: Result<User, MyError>)
    ensures
        outcome == match found {
            Some(user) => Ok::<User, MyError>(user),
            None => Err::<User, MyError>(MyError::UserDoesNotExists),
        },
{
    match found {
        Some(user) => Ok(user),
        None => Err(MyError::UserDoesNotExists),
    }
}

/// Decides a log-in once the user has been found: the right password earns a
/// request for a token for the user's id, any other is turned down.
pub fn login(input: &LogInInput, user: &User) -> (outcome: Result<CreateToken<i32>, MyError>)
    ensures
        outcome == if argon2_verdict(encode_utf8(input.password@), user.password_hash@) == Some(
            true,
        ) {
            Ok::<CreateToken<i32>, MyError>((CreateToken { data: user.id }))
        } else {
            Err::<CreateToken<i32>, MyError>(MyError::IncorrectPassword)
        },
{
    if validate_password(input.password.as_str().as_bytes(), user.password_hash.as_str()) {
        Ok(CreateToken { data: user.id })
    } else {
        Err(MyError::IncorrectPassword)
    }
}

impl Token {
    /// The reply to a log-in, from what the token service answered.
    pub fn from_issued(issued: Option<String>) -> (outcome: Result<Token, MyError>)
        ensures
            outcome == match issued {
                Some(token) => Ok::<Token, MyError>((Token { token })),
                None => Err::<Token, MyError>(MyError::TokenCreationError),
            },
    {
        match issued {
            Some(token) => Ok(Token { token }),
            None => Err(MyError::TokenCreationError),
        }
    }
}

impl AuthedUser {
    /// The id that a bearer token stands for, from what the token service made
    /// of the token. Why a token was turned down is not passed on.
    pub fn from_token(claim: Result<i32, TokenError>) -> (outcome: Result<i32, MyError>)
        ensures
            outcome == match claim {
                Ok(user_id) => Ok::<i32, MyError>(user_id),
                Err(_) => Err::<i32, MyError>(MyError::TokenValidationError),
            },
    {
        match claim {
            Ok(user_id) => Ok(user_id),
            Err(_) => Err(MyError::TokenValidationError),
        }
    }

    /// The authenticated user, from the id in the token and the user that the
    /// store holds under it, if any.
    pub fn from_lookup(user_id: i32, found: Option<User>) -> (outcome: Result<Self, MyError>)
        ensures
            outcome == match found {
                Some(user) => Ok::<AuthedUser, MyError>((AuthedUser { user_id, user })),
                None => Err::<AuthedUser, MyError>(MyError::UserDoesNotExists),
            },
    {
        match found {
            Some(user) => Ok(AuthedUser { user_id, user }),
            None => Err(MyError::UserDoesNotExists),
        }
    }
}

} // verus!
