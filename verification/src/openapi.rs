//! Additions to the generated API description.

pub mod addons;
