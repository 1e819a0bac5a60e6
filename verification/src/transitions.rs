//! The three transitions on a post, each as a mathematical rule and as the
//! function that carries it out.

use crate::accounts::CreatePost;
use crate::accounts::LikePost;
use crate::accounts::UpdatePost;
use crate::error::CreateError;
use crate::error::CustomError;
use crate::ledger::ledger_unix_timestamp;
use crate::post::content_fits;
use crate::post::fits;
use crate::post::PostView;
use anchor_lang::prelude::ProgramError;
use anchor_lang::prelude::Pubkey;
use vstd::prelude::*;

verus! {

/// The post that `author` creates with `content` at time `now`: it has no
/// likes yet.
pub open spec fn new_post(author: Pubkey, content: Seq<char>, now: i64) -> PostView {
    PostView { author, content, timestamp: now, likes: 0 }
}

/// The rule of creation: what the slot holds afterwards and what the caller
/// is told, given what reading the clock gave. Content over the limit is
/// refused whatever the clock says. Otherwise a reading of the time puts a new
/// post stamped with it in the slot, and a failed reading is passed on. A
/// failure leaves the slot as it was.
pub open spec fn create_outcome(
    slot: PostView,
    author: Pubkey,
    content: Seq<char>,
    reading: Result<i64, ProgramError>,
) -> (PostView, Result<(), CreateError>) {
    if !content_fits(content) {
        (slot, Err(CreateError::Rejected(CustomError::ContentTooLarge)))
    } else {
        match reading {
            Ok(now) => (new_post(author, content, now), Ok(())),
            Err(error) => (slot, Err(CreateError::Ledger(error))),
        }
    }
}

/// The rule of amending: what the post is afterwards and what the caller is
/// told. Only the author may amend, and only with content within the limit;
/// the check of the caller comes first. Success changes the content and
/// nothing else, a failure changes nothing.
pub open spec fn update_outcome(post: PostView, caller: Pubkey, new_content: Seq<char>) -> (
    PostView,
    Result<(), CustomError>,
) {
    if caller != post.author {
        (post, Err(CustomError::Unauthorized))
    } else if !content_fits(new_content) {
        (post, Err(CustomError::ContentTooLarge))
    } else {
        (PostView { content: new_content, ..post }, Ok(()))
    }
}

/// The rule of liking: what the post is afterwards and what the caller is
/// told. The counter goes up by one and nothing else changes, unless the
/// counter is at its maximum: then the like is refused and nothing changes.
pub open spec fn like_outcome(post: PostView) -> (PostView, Result<(), CustomError>) {
    if post.likes == u64::MAX {
        (post, Err(CustomError::Overflow))
    } else {
        (PostView { likes: (post.likes + 1) as u64, ..post }, Ok(()))
    }
}

/// Creates the post of `ctx.author` with `content` in the slot `ctx.post`,
/// given the `reading` that the ledger's clock gave. What happens is what
/// [`create_outcome`] says.
pub fn create_post_with_clock(
    ctx: &mut CreatePost,
    content: String,
    reading: Result<i64, ProgramError>,
) -> (result: Result<(), CreateError>)
    ensures
        (final(ctx).post@, result) == create_outcome(
            old(ctx).post@,
            old(ctx).author,
            content@,
            reading,
        ),
        final(ctx).author == old(ctx).author,
        result is Ok ==> final(ctx).post.well_formed(),
        result is Err ==> *final(ctx) == *old(ctx),
{
    if !fits(content.as_str()) {
        return Err(CreateError::Rejected(CustomError::ContentTooLarge));
    }
    match reading {
        Ok(now) => {
            ctx.post.author = ctx.author;
            ctx.post.content = content;
            ctx.post.timestamp = now;
            ctx.post.likes = 0;
            Ok(())
        },
        Err(error) => Err(CreateError::Ledger(error)),
    }
}

/// Creates the post of `ctx.author` with `content` in the slot `ctx.post`,
/// stamped with the ledger's current time.
///
/// Content over the limit is refused without looking at the clock. For
/// content within the limit the clock is read, and what happens is what
/// [`create_outcome`] says for the reading it gave, which nobody can know
/// beforehand.
pub fn create_post(ctx: &mut CreatePost, content: String) -> (result: Result<(), CreateError>)
    ensures
        exists|reading: Result<i64, ProgramError>|
            (final(ctx).post@, result) == #[trigger] create_outcome(
                old(ctx).post@,
                old(ctx).author,
                content@,
                reading,
            ),
        final(ctx).author == old(ctx).author,
        result is Ok ==> final(ctx).post.well_formed(),
        result is Err ==> *final(ctx) == *old(ctx),
{
    if !fits(content.as_str()) {
        let refused = Err(CreateError::Rejected(CustomError::ContentTooLarge));
        // Every reading gives this outcome; one of them stands for all.
        assert((ctx.post@, refused) == create_outcome(ctx.post@, ctx.author, content@, Ok(0)));
        return refused;
    }
    let reading = ledger_unix_timestamp();
    create_post_with_clock(ctx, content, reading)
}

/// Replaces the content of `ctx.post` with `new_content` on behalf of
/// `ctx.author`. What happens is what [`update_outcome`] says.
pub fn update_post(ctx: &mut UpdatePost, new_content: String) -> (result: Result<(), CustomError>)
    ensures
        (final(ctx).post@, result) == update_outcome(
            old(ctx).post@,
            old(ctx).author,
            new_content@,
        ),
        final(ctx).author == old(ctx).author,
        result is Ok ==> final(ctx).post.well_formed(),
        result is Err ==> *final(ctx) == *old(ctx),
{
    if !(ctx.post.author == ctx.author) {
        return Err(CustomError::Unauthorized);
    }
    if !fits(new_content.as_str()) {
        return Err(CustomError::ContentTooLarge);
    }
    ctx.post.content = new_content;
    Ok(())
}

/// Counts one more like on `ctx.post`, whoever asks. What happens is what
/// [`like_outcome`] says.
pub fn like_post(ctx: &mut LikePost) -> (result: Result<(), CustomError>)
    ensures
        (final(ctx).post@, result) == like_outcome(old(ctx).post@),
        old(ctx).post.well_formed() ==> final(ctx).post.well_formed(),
        result is Err ==> *final(ctx) == *old(ctx),
{
    match ctx.post.likes.checked_add(1) {
        Some(likes) => {
            ctx.post.likes = likes;
            Ok(())
        },
        None => Err(CustomError::Overflow),
    }
}

} // verus!
