//! The ways in which a transition on a post can fail.

use anchor_lang::prelude::ProgramError;
use vstd::prelude::*;

verus! {

/// Why a transition was refused. A refused transition changes nothing, and
/// asking again with the same input is refused again.
#[derive(Clone, Copy, Debug, PartialEq, Eq)]
pub enum CustomError {
    /// The content is longer than the limit on a post's content.
    ContentTooLarge,
    /// The caller is not the author of the post.
    Unauthorized,
    /// The like counter is at its maximum and cannot count one more.
    Overflow,
}

/// Why creating a post failed: either the request was refused, or the ledger
/// could not say what time it is.
#[derive(Debug, PartialEq, Eq)]
pub enum CreateError {
    /// The request itself was refused.
    Rejected(CustomError),
    /// Reading the ledger's clock failed with this error.
    Ledger(ProgramError),
}

} // verus!
