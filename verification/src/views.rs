//! What the HTTP layer takes in and gives out, and the decisions it makes on
//! the way.

pub mod admins;
pub mod drafts;
pub mod posts;
pub mod swagger_ui;
pub mod users;
