//! Posts as the API shows and accepts them.

use crate::errors::MyError;
use crate::models::{Post, User};
use vstd::prelude::*;

verus! {

/// What the API shows of a post to one reader.
#[derive(Clone, Debug, PartialEq, Eq)]
pub struct PostData {
    pub id: i32,
    pub subject: String,
    pub body: String,
    /// Whether the reader is the author.
    pub owner: bool,
    pub status: String,
}

/// The body of a request to create a post.
#[derive(Clone, Debug, PartialEq, Eq)]
pub struct CreatePostData {
    pub subject: String,
    pub body: String,
}

/// The body of a request to change a post's subject.
#[derive(Clone, Debug, PartialEq, Eq)]
pub struct UpdatePostSubject {
    pub new_subject: String,
}

/// The body of a request to change a post's body.
#[derive(Clone, Debug, PartialEq, Eq)]
pub struct UpdatePostBody {
    pub new_body: String,
}

impl PostData {
    /// What the reader `user_maybe` is shown of `post`. Nobody owns a post
    /// that is read anonymously.
    pub open spec fn shown(post: Post, user_maybe: Option<&User>) -> PostData {
        PostData {
            id: post.id,
            subject: post.post_subject,
            body: post.post_body,
            owner: match user_maybe {
                Some(user) => user.id == post.user_id,
                None => false,
            },
            status: post.published_status,
        }
    }

    /// What the reader `user_maybe` is shown of `post`.
    pub fn from_post(post: &Post, user_maybe: Option<&User>) -> (data: Self)
        ensures
            data == PostData::shown(*post, user_maybe),
    {
        let owner = match user_maybe {
            Some(user) => user.id == post.user_id,
            None => false,
        };
        PostData {
            id: post.id,
            subject: post.post_subject.clone(),
            body: post.post_body.clone(),
            owner,
            status: post.published_status.clone(),
        }
    }
}

/// What the reader `user_maybe` is shown of each of `posts`, in their order.
pub fn get_posts(posts: &Vec<Post>, user_maybe: Option<&User>) -> (shown: Vec<PostData>)
    ensures
        shown@.len() == posts@.len(),
        forall|i: int|
            0 <= i < posts@.len() ==> #[trigger] shown@[i] == PostData::shown(posts@[i], user_maybe),
{
    let mut shown: Vec<PostData> = Vec::new();
    let mut i: usize = 0;
    while i < posts.len()
        invariant
            i <= posts@.len(),
            shown@.len() == i,
            forall|j: int|
                0 <= j < i ==> #[trigger] shown@[j] == PostData::shown(posts@[j], user_maybe),
        decreases posts@.len() - i,
    {
        shown.push(PostData::from_post(&posts[i], user_maybe));
        i += 1;
    }
    shown
}

/// Lets a request on `post` through if the post belongs to the user `user_id`.
pub fn ensure_user_owns_post(post: Post, user_id: i32) -> (outcome: Result<Post, MyError>)
    ensures
        outcome == if post.user_id == user_id {
            Ok::<Post, MyError>(post)
        } else {
            Err::<Post, MyError>(MyError::YouDontOwnThisPost)
        },
{
    if post.is_owned_by(user_id) {
        Ok(post)
    } else {
        Err(MyError::YouDontOwnThisPost)
    }
}

} // verus!
