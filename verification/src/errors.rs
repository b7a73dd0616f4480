//! The errors that a request can end in, with the text and the HTTP status
//! that each is reported with.

use vstd::prelude::*;

verus! {

/// Why a request failed.
#[derive(Clone, Debug, PartialEq, Eq)]
pub enum MyError {
    /// The store reported an error; the text is its description.
    DieselError(String),
    UserAlreadyExists,
    UserDoesNotExists,
    IncorrectPassword,
    TokenCreationError,
    TokenValidationError,
    InternalServerError,
    NotSuperAdmin,
    NotAdmin,
    YouDontOwnThisPost,
}

/// What the store answered an insert or an update with, as far as the
/// backend tells its faults apart.
#[derive(Clone, Debug, PartialEq, Eq)]
pub enum StoreFault {
    /// The row would have repeated a value that must be unique.
    UniqueViolation,
    /// Any other fault, with its description.
    Other(String),
}

/// The body of an error reply.
#[derive(Clone, Debug, PartialEq, Eq)]
pub struct ErrorResponse {
    pub error: String,
}

pub const BAD_REQUEST: u16 = 400;

pub const UNAUTHORIZED: u16 = 401;

pub const INTERNAL_SERVER_ERROR: u16 = 500;

impl MyError {
    /// The text that the error is reported with.
    pub open spec fn message_text(self) -> Seq<char> {
        match self {
            MyError::DieselError(description) => description@,
            MyError::UserAlreadyExists => "User Already Exists!"@,
            MyError::UserDoesNotExists => "User Does Not Exists!"@,
            MyError::IncorrectPassword => "Incorrect Password!"@,
            MyError::TokenCreationError => "Token Creation Error!"@,
            MyError::TokenValidationError => "Token Validation Error!"@,
            MyError::InternalServerError => "Internal Server Error!"@,
            MyError::NotSuperAdmin => "You need to be a superuser to perform this action!"@,
            MyError::NotAdmin => "You need to be a admin to perform this action!"@,
            MyError::YouDontOwnThisPost => "You do not own this post!"@,
        }
    }

    /// The HTTP status that the error is reported with.
    pub open spec fn status(self) -> u16 {
        match self {
            MyError::DieselError(_) => BAD_REQUEST,
            MyError::UserAlreadyExists => BAD_REQUEST,
            MyError::UserDoesNotExists => BAD_REQUEST,
            MyError::IncorrectPassword => BAD_REQUEST,
            MyError::TokenCreationError => INTERNAL_SERVER_ERROR,
            MyError::TokenValidationError => UNAUTHORIZED,
            MyError::InternalServerError => INTERNAL_SERVER_ERROR,
            MyError::NotSuperAdmin => UNAUTHORIZED,
            MyError::NotAdmin => UNAUTHORIZED,
            MyError::YouDontOwnThisPost => UNAUTHORIZED,
        }
    }

    /// The text that the error is reported with.
    pub fn message(&self) -> (text: String)
        ensures
            text@ == self.message_text(),
    {
        match self {
            MyError::DieselError(description) => description.clone(),
            MyError::UserAlreadyExists => "User Already Exists!".to_owned(),
            MyError::UserDoesNotExists => "User Does Not Exists!".to_owned(),
            MyError::IncorrectPassword => "Incorrect Password!".to_owned(),
            MyError::TokenCreationError => "Token Creation Error!".to_owned(),
            MyError::TokenValidationError => "Token Validation Error!".to_owned(),
            MyError::InternalServerError => "Internal Server Error!".to_owned(),
            MyError::NotSuperAdmin => "You need to be a superuser to perform this action!".to_owned(),
            MyError::NotAdmin => "You need to be a admin to perform this action!".to_owned(),
            MyError::YouDontOwnThisPost => "You do not own this post!".to_owned(),
        }
    }

    /// The HTTP status that the error is reported with.
    pub fn status_code(&self) -> (code: u16)
        ensures
            code == self.status(),
            code == BAD_REQUEST || code == UNAUTHORIZED || code == INTERNAL_SERVER_ERROR,
    {
        match self {
            MyError::DieselError(_) => BAD_REQUEST,
            MyError::UserAlreadyExists => BAD_REQUEST,
            MyError::UserDoesNotExists => BAD_REQUEST,
            MyError::IncorrectPassword => BAD_REQUEST,
            MyError::TokenCreationError => INTERNAL_SERVER_ERROR,
            MyError::TokenValidationError => UNAUTHORIZED,
            MyError::InternalServerError => INTERNAL_SERVER_ERROR,
            MyError::NotSuperAdmin => UNAUTHORIZED,
            MyError::NotAdmin => UNAUTHORIZED,
            MyError::YouDontOwnThisPost => UNAUTHORIZED,
        }
    }

    /// The reply that reports the error: its status and its body.
    pub fn error_response(&self) -> (reply: (u16, ErrorResponse))
        ensures
            reply.0 == self.status(),
            reply.1.error@ == self.message_text(),
    {
        (self.status_code(), ErrorResponse { error: self.message() })
    }

    /// The error that a failed insert of a new user is reported as: a name
    /// that is taken is told apart from every other fault.
    pub fn from_signup_fault(fault: StoreFault) -> (error: MyError)
        ensures
            error == match fault {
                StoreFault::UniqueViolation => MyError::UserAlreadyExists,
                StoreFault::Other(description) => MyError::DieselError(description),
            },
    {
        match fault {
            StoreFault::UniqueViolation => MyError::UserAlreadyExists,
            StoreFault::Other(description) => MyError::DieselError(description),
        }
    }
}

} // verus!
