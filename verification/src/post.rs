//! The post record and its mathematical model.

use anchor_lang::prelude::Pubkey;
use vstd::prelude::*;
use vstd::utf8::encode_utf8;

verus! {

/// The largest number of bytes that the content of a post may take.
pub const MAX_CONTENT_LEN: usize = 1024;

/// Bytes that the ledger reserves at the start of every stored record.
pub const HEADER_LEN: usize = 8;

/// Bytes of a stored author identity.
pub const AUTHOR_LEN: usize = 32;

/// Bytes of the length prefix that precedes the stored content.
pub const CONTENT_PREFIX_LEN: usize = 4;

/// Bytes of a stored timestamp.
pub const TIMESTAMP_LEN: usize = 8;

/// Bytes of a stored like counter.
pub const LIKES_LEN: usize = 8;

/// The size of the allocation that holds one post: room for the header, the
/// author, content of the greatest permitted length with its length prefix,
/// the timestamp and the like counter.
pub const POST_SPACE: usize = HEADER_LEN + AUTHOR_LEN + CONTENT_PREFIX_LEN + MAX_CONTENT_LEN
    + TIMESTAMP_LEN + LIKES_LEN;

/// A post: a short text with the identity that wrote it, the time it was
/// created and the number of likes it has received.
#[derive(Debug, PartialEq, Eq)]
pub struct Post {
    /// The identity that created the post. Never changes.
    pub author: Pubkey,
    /// The text, at most [`MAX_CONTENT_LEN`] bytes of UTF-8.
    pub content: String,
    /// The ledger's time, in seconds since the Unix epoch, when the post was
    /// created. Never changes.
    pub timestamp: i64,
    /// How often the post has been liked. Never decreases.
    pub likes: u64,
}

/// The mathematical value of a [`Post`]: its content as a sequence of
/// characters, the other fields as they are.
pub struct PostView {
    pub author: Pubkey,
    pub content: Seq<char>,
    pub timestamp: i64,
    pub likes: u64,
}

impl View for Post {
    type V = PostView;

    open spec fn view(&self) -> PostView {
        PostView {
            author: self.author,
            content: self.content@,
            timestamp: self.timestamp,
            likes: self.likes,
        }
    }
}

/// The number of bytes that `content` takes, which is the length of its
/// UTF-8 encoding.
pub open spec fn content_len(content: Seq<char>) -> nat {
    encode_utf8(content).len()
}

/// Whether `content` is short enough for a post.
pub open spec fn content_fits(content: Seq<char>) -> bool {
    content_len(content) <= MAX_CONTENT_LEN
}

/// The number of bytes that a post with this content takes in storage.
pub open spec fn stored_len(content: Seq<char>) -> nat {
    HEADER_LEN as nat + AUTHOR_LEN as nat + CONTENT_PREFIX_LEN as nat + content_len(content)
        + TIMESTAMP_LEN as nat + LIKES_LEN as nat
}

impl PostView {
    /// The invariant of a post: its content is within the limit.
    pub open spec fn well_formed(self) -> bool {
        content_fits(self.content)
    }
}

impl Post {
    /// The invariant of a post: its content is within the limit.
    pub open spec fn well_formed(&self) -> bool {
        self@.well_formed()
    }
}

impl Clone for Post {
    fn clone(&self) -> (copy: Post)
        ensures
            copy == *self,
    {
        Post {
            author: self.author,
            content: self.content.clone(),
            timestamp: self.timestamp,
            likes: self.likes,
        }
    }
}

/// Tells whether `content` is short enough for a post.
pub fn fits(content: &str) -> (ok: bool)
    ensures
        ok == content_fits(content@),
{
    content.as_bytes().len() <= MAX_CONTENT_LEN
}

} // verus!
