//! What holds of the transitions: statements about the rules in
//! [`crate::transitions`], each proved for every input.

use crate::error::CreateError;
use crate::error::CustomError;
use crate::post::content_fits;
use crate::post::content_len;
use crate::post::stored_len;
use crate::post::PostView;
use crate::post::MAX_CONTENT_LEN;
use crate::post::POST_SPACE;
use crate::transitions::create_outcome;
use crate::transitions::like_outcome;
use crate::transitions::new_post;
use crate::transitions::update_outcome;
use anchor_lang::prelude::ProgramError;
use anchor_lang::prelude::Pubkey;
use vstd::prelude::*;

verus! {

/// A request that can be made of a post once it exists.
pub enum Request {
    /// `caller` asks to replace the content.
    Update { caller: Pubkey, content: Seq<char> },
    /// Someone likes the post.
    Like,
}

/// The post after one request. A refused request leaves it as it was.
pub open spec fn after(post: PostView, request: Request) -> PostView {
    match request {
        Request::Update { caller, content } => update_outcome(post, caller, content).0,
        Request::Like => like_outcome(post).0,
    }
}

/// The post after a series of requests, made one after the other.
pub open spec fn after_all(post: PostView, requests: Seq<Request>) -> PostView
    decreases requests.len(),
{
    if requests.len() == 0 {
        post
    } else {
        after(after_all(post, requests.drop_last()), requests.last())
    }
}

/// What liking a post `times` times in a row gives: the post afterwards, and
/// whether every like was accepted. The first like that is refused ends the
/// row.
pub open spec fn liked(post: PostView, times: nat) -> (PostView, Result<(), CustomError>)
    decreases times,
{
    if times == 0 {
        (post, Ok(()))
    } else {
        let before = liked(post, (times - 1) as nat);
        if before.1 is Ok {
            like_outcome(before.0)
        } else {
            before
        }
    }
}

/// Creating a post with content of at most [`MAX_CONTENT_LEN`] bytes
/// succeeds whenever the clock can be read, whatever the slot held, and the
/// new post has the caller as author, the content as given, the clock's time
/// as timestamp and no likes.
pub proof fn law_create_within_limit(slot: PostView, author: Pubkey, content: Seq<char>, now: i64)
    requires
        content_len(content) <= MAX_CONTENT_LEN,
    ensures
        create_outcome(slot, author, content, Ok(now)) == (
            PostView { author, content, timestamp: now, likes: 0 },
            Ok::<(), CreateError>(()),
        ),
{
}

/// Content of more than [`MAX_CONTENT_LEN`] bytes is never accepted, and the
/// record stays as it was. Creation fails with `ContentTooLarge` whatever the
/// slot held and whatever the clock says. An update fails for every caller;
/// for the author it fails with `ContentTooLarge`, while anyone else is told
/// `Unauthorized`, since the caller is checked before the length.
pub proof fn law_oversized_content_is_refused(
    record: PostView,
    caller: Pubkey,
    content: Seq<char>,
    reading: Result<i64, ProgramError>,
)
    requires
        content_len(content) > MAX_CONTENT_LEN,
    ensures
        create_outcome(record, caller, content, reading) == (
            record,
            Err::<(), CreateError>(CreateError::Rejected(CustomError::ContentTooLarge)),
        ),
        update_outcome(record, caller, content).0 == record,
        update_outcome(record, caller, content).1 is Err,
        caller == record.author ==> update_outcome(record, caller, content) == (
            record,
            Err::<(), CustomError>(CustomError::ContentTooLarge),
        ),
{
}

/// An update by anyone but the author fails with `Unauthorized`, whatever
/// the new content is, and the post stays as it was.
pub proof fn law_update_by_another_is_refused(
    post: PostView,
    caller: Pubkey,
    new_content: Seq<char>,
)
    requires
        caller != post.author,
    ensures
        update_outcome(post, caller, new_content) == (
            post,
            Err::<(), CustomError>(CustomError::Unauthorized),
        ),
{
}

/// An update by the author with content within the limit succeeds: the
/// content is the new one, and author, timestamp and likes are as before.
pub proof fn law_update_by_author(post: PostView, new_content: Seq<char>)
    requires
        content_len(new_content) <= MAX_CONTENT_LEN,
    ensures
        update_outcome(post, post.author, new_content) == (
            PostView {
                author: post.author,
                content: new_content,
                timestamp: post.timestamp,
                likes: post.likes,
            },
            Ok::<(), CustomError>(()),
        ),
{
}

/// A like on a post whose counter is below the maximum succeeds and adds
/// one to the counter, changing nothing else. Who likes plays no part: the
/// rule has no caller to look at.
pub proof fn law_like_adds_one(post: PostView)
    requires
        post.likes < u64::MAX,
    ensures
        like_outcome(post) == (
            PostView {
                author: post.author,
                content: post.content,
                timestamp: post.timestamp,
                likes: (post.likes + 1) as u64,
            },
            Ok::<(), CustomError>(()),
        ),
{
}

/// Liking a post `times` times in a row adds `times` to its counter, as long
/// as the sum fits in the counter: every like succeeds and nothing else
/// changes.
pub proof fn law_likes_add_up(post: PostView, times: nat)
    requires
        post.likes + times <= u64::MAX,
    ensures
        liked(post, times) == (
            PostView {
                author: post.author,
                content: post.content,
                timestamp: post.timestamp,
                likes: (post.likes + times) as u64,
            },
            Ok::<(), CustomError>(()),
        ),
    decreases times,
{
    if times > 0 {
        law_likes_add_up(post, (times - 1) as nat);
    }
}

/// A like on a post whose counter is at the maximum fails with `Overflow`,
/// and the counter, like the rest of the post, stays as it was.
pub proof fn law_like_at_maximum_is_refused(post: PostView)
    requires
        post.likes == u64::MAX,
    ensures
        like_outcome(post) == (post, Err::<(), CustomError>(CustomError::Overflow)),
{
}

/// One request, accepted or refused, keeps the author and the timestamp,
/// never lowers the likes, and keeps the content within the limit.
pub proof fn law_request_keeps_invariants(post: PostView, request: Request)
    ensures
        after(post, request).author == post.author,
        after(post, request).timestamp == post.timestamp,
        after(post, request).likes >= post.likes,
        post.well_formed() ==> after(post, request).well_formed(),
{
}

/// Whatever requests are made of a post, its author and its timestamp stay
/// what they were, its likes never go down, and its content stays within the
/// limit.
pub proof fn law_history_keeps_invariants(post: PostView, requests: Seq<Request>)
    ensures
        after_all(post, requests).author == post.author,
        after_all(post, requests).timestamp == post.timestamp,
        after_all(post, requests).likes >= post.likes,
        post.well_formed() ==> after_all(post, requests).well_formed(),
    decreases requests.len(),
{
    if requests.len() > 0 {
        law_history_keeps_invariants(post, requests.drop_last());
        law_request_keeps_invariants(after_all(post, requests.drop_last()), requests.last());
    }
}

/// A post created by `author`, whatever has been asked of it since, is
/// within the limit, still has `author` as its author and the time of its
/// creation as its timestamp. So an update by anyone else fails with
/// `Unauthorized` and leaves it as it is, and an update by `author` with
/// content within the limit succeeds and changes the content alone.
pub proof fn law_only_the_creator_updates(
    author: Pubkey,
    content: Seq<char>,
    now: i64,
    requests: Seq<Request>,
    caller: Pubkey,
    new_content: Seq<char>,
)
    requires
        content_fits(content),
    ensures
        ({
            let post = after_all(new_post(author, content, now), requests);
            &&& post.well_formed()
            &&& post.author == author
            &&& post.timestamp == now
            &&& caller != author ==> update_outcome(post, caller, new_content) == (
                post,
                Err::<(), CustomError>(CustomError::Unauthorized),
            )
            &&& caller == author && content_fits(new_content) ==> update_outcome(
                post,
                caller,
                new_content,
            ) == (PostView { content: new_content, ..post }, Ok::<(), CustomError>(()))
        }),
{
    law_history_keeps_invariants(new_post(author, content, now), requests);
}

/// A post takes at most [`POST_SPACE`] bytes in storage exactly when its
/// content is within the limit, and [`POST_SPACE`] is 1084 bytes.
pub proof fn law_allocation_holds_a_post(content: Seq<char>)
    ensures
        POST_SPACE == 1084,
        content_fits(content) <==> stored_len(content) <= POST_SPACE,
{
}

} // verus!
