//! The security scheme that the API description advertises.

use vstd::prelude::*;

verus! {

/// Marks the API as protected by bearer tokens.
#[derive(Clone, Copy, Debug, PartialEq, Eq, Structural)]
pub struct BearerSecurity;

impl BearerSecurity {
    /// The name under which the scheme is registered.
    pub const SCHEME_NAME: &'static str = "bearer_auth";

    /// The format of the bearer tokens.
    pub const BEARER_FORMAT: &'static str = "JWT";
}

} // verus!
