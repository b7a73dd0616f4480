//! Drafts as the API shows and accepts them.

use crate::models::Draft;
use vstd::prelude::*;

verus! {

/// What the API shows of a draft.
#[derive(Clone, Debug, PartialEq, Eq)]
pub struct DraftData {
    pub id: i32,
    pub subject: String,
    pub body: String,
    pub post_id: Option<i32>,
}

/// The body of a request to create a draft.
#[derive(Clone, Debug, PartialEq, Eq)]
pub struct CreateDraftData {
    pub subject: String,
    pub body: String,
    pub post_id: Option<i32>,
}

impl DraftData {
    /// What the API shows of `draft`.
    pub fn from_draft(draft: &Draft) -> (data: Self)
        ensures
            data.id == draft.id,
            data.subject == draft.draft_subject,
            data.body == draft.draft_body,
            data.post_id == draft.post_id,
    {
        DraftData {
            id: draft.id,
            subject: draft.draft_subject.clone(),
            body: draft.draft_body.clone(),
            post_id: draft.post_id,
        }
    }
}

} // verus!
