//! Signed bearer tokens: the codec, the clock it reads, and the issuance
//! policy that sits in front of an optional token cache.

pub mod actor;
pub mod clock;
pub mod guarantees;
pub mod hs256;
pub mod seal;
pub mod simple_jwt_helper;
