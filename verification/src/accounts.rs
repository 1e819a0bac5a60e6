//! What each transition is handed: the record it works on and, where it
//! matters, the identity of the caller. The ledger resolves and authenticates
//! both before a transition runs.

use crate::post::Post;
use anchor_lang::prelude::Pubkey;
use vstd::prelude::*;

verus! {

/// The references of a `create_post` request.
#[derive(Debug, PartialEq, Eq)]
pub struct CreatePost {
    /// The freshly allocated slot that will hold the new post.
    pub post: Post,
    /// The authenticated identity that creates the post and pays for its slot.
    pub author: Pubkey,
}

/// The references of an `update_post` request.
#[derive(Debug, PartialEq, Eq)]
pub struct UpdatePost {
    /// The post to amend.
    pub post: Post,
    /// The authenticated identity that asks for the change.
    pub author: Pubkey,
}

/// The references of a `like_post` request. It names no caller: anyone may
/// like any post.
#[derive(Debug, PartialEq, Eq)]
pub struct LikePost {
    /// The post to like.
    pub post: Post,
}

impl Clone for CreatePost {
    fn clone(&self) -> (copy: CreatePost)
        ensures
            copy == *self,
    {
        CreatePost { post: self.post.clone(), author: self.author }
    }
}

impl Clone for UpdatePost {
    fn clone(&self) -> (copy: UpdatePost)
        ensures
            copy == *self,
    {
        UpdatePost { post: self.post.clone(), author: self.author }
    }
}

impl Clone for LikePost {
    fn clone(&self) -> (copy: LikePost)
        ensures
            copy == *self,
    {
        LikePost { post: self.post.clone() }
    }
}

} // verus!
