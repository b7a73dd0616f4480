//! The records of the store, as the rest of the backend sees them.

use vstd::prelude::*;

verus! {

/// The timestamp type of `chrono`, carried along with the records and never
/// looked into.
#[verifier::external_type_specification]
#[verifier::external_body]
pub struct ExNaiveDateTime(chrono::NaiveDateTime);

/// A registered user.
#[derive(Debug, PartialEq, Eq)]
pub struct User {
    pub id: i32,
    pub username: String,
    pub password_hash: String,
    pub is_admin: bool,
    pub created_at: chrono::NaiveDateTime,
    pub updated_at: chrono::NaiveDateTime,
}

/// The administrator record of a user.
#[derive(Debug, PartialEq, Eq)]
pub struct Admin {
    pub id: i32,
    pub user_id: i32,
    pub is_super_user: bool,
    pub created_at: chrono::NaiveDateTime,
    pub updated_at: chrono::NaiveDateTime,
}

/// A post with its owner and its place in the publishing workflow.
#[derive(Debug, PartialEq, Eq)]
pub struct Post {
    pub id: i32,
    pub post_subject: String,
    pub post_body: String,
    pub published_status: String,
    pub user_id: i32,
    pub created_at: chrono::NaiveDateTime,
    pub updated_at: chrono::NaiveDateTime,
}

/// A draft, possibly of an existing post.
#[derive(Debug, PartialEq, Eq)]
pub struct Draft {
    pub id: i32,
    pub draft_subject: String,
    pub draft_body: String,
    pub post_id: Option<i32>,
    pub created_at: chrono::NaiveDateTime,
    pub updated_at: chrono::NaiveDateTime,
}

/// A user about to be inserted.
#[derive(Clone, Copy, Debug, PartialEq, Eq)]
pub struct NewUser<'a> {
    pub username: &'a str,
    pub password_hash: &'a str,
    pub is_admin: bool,
}

/// A post about to be inserted.
#[derive(Clone, Copy, Debug, PartialEq, Eq)]
pub struct NewPost<'a> {
    pub post_subject: &'a str,
    pub post_body: &'a str,
    pub user_id: i32,
    pub published_status: &'a str,
}

/// A draft about to be inserted.
#[derive(Clone, Copy, Debug, PartialEq, Eq)]
pub struct NewDraft<'a> {
    pub draft_subject: &'a str,
    pub draft_body: &'a str,
    pub post_id: Option<i32>,
}

/// Where a post stands in the publishing workflow.
#[derive(Clone, Copy, Debug, PartialEq, Eq, Structural)]
pub enum PublishStatus {
    Published,
    Unpublished,
    RequestToAdminForPublish,
}

impl PublishStatus {
    /// The text under which the status is stored with a post.
    pub open spec fn label_text(self) -> Seq<char> {
        match self {
            PublishStatus::Published => "Published"@,
            PublishStatus::Unpublished => "Unpublished"@,
            PublishStatus::RequestToAdminForPublish => "Request to admin for publish"@,
        }
    }

    /// The text under which the status is stored with a post.
    pub fn label(&self) -> (text: &'static str)
        ensures
            text@ == self.label_text(),
    {
        match self {
            PublishStatus::Published => "Published",
            PublishStatus::Unpublished => "Unpublished",
            PublishStatus::RequestToAdminForPublish => "Request to admin for publish",
        }
    }
}

impl<'a> NewUser<'a> {
    /// The record of someone who signs up: never an administrator.
    pub fn registering(username: &'a str, password_hash: &'a str) -> (user: Self)
        ensures
            user.username@ == username@,
            user.password_hash@ == password_hash@,
            !user.is_admin,
    {
        NewUser { username, password_hash, is_admin: false }
    }
}

impl<'a> NewPost<'a> {
    /// The record of a post that its author has just written: not published.
    pub fn written(post_subject: &'a str, post_body: &'a str, user_id: i32) -> (post: Self)
        ensures
            post.post_subject@ == post_subject@,
            post.post_body@ == post_body@,
            post.user_id == user_id,
            post.published_status@ == PublishStatus::Unpublished.label_text(),
    {
        NewPost {
            post_subject,
            post_body,
            user_id,
            published_status: PublishStatus::Unpublished.label(),
        }
    }
}

impl Post {
    /// Whether the post belongs to the user `user_id`.
    pub fn is_owned_by(&self, user_id: i32) -> (owned: bool)
        ensures
            owned == (self.user_id == user_id),
    {
        self.user_id == user_id
    }
}

} // verus!
