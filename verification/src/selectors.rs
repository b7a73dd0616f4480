//! Views of the store's records that join more than one table.

pub mod admins;
