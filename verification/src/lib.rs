//! Core of a small content-management backend: the bearer-token service, the
//! policy that sizes the worker pools, and the plain data that the HTTP layer
//! exchanges with both.

pub mod argon2_password_hasher;
pub mod auth;
pub mod config;
pub mod errors;
pub mod models;
pub mod openapi;
pub mod selectors;
pub mod sizing;
pub mod utils;
pub mod views;
