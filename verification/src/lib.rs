//! Post records: short texts, each owned by one author identity, that can be
//! created, amended by their author, and liked by anyone.
//!
//! [`post`] holds the record and its model, [`accounts`] what a transition is
//! handed, [`transitions`] the three transitions with the rules they follow,
//! [`laws`] what is proved of those rules, [`error`] the ways to fail, and
//! [`ledger`] the few things taken from the ledger runtime on trust.

pub mod accounts;
pub mod error;
pub mod laws;
pub mod ledger;
pub mod post;
pub mod transitions;

pub use accounts::CreatePost;
pub use accounts::LikePost;
pub use accounts::UpdatePost;
pub use error::CreateError;
pub use error::CustomError;
pub use post::Post;
pub use post::MAX_CONTENT_LEN;
pub use post::POST_SPACE;
pub use transitions::create_post;
pub use transitions::create_post_with_clock;
pub use transitions::like_post;
pub use transitions::update_post;
