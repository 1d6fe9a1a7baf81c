//! Target resolution and forge dispatch for a comment-posting tool.
//!
//! The library parses a compact "where to comment" specification into a
//! structured target, resolves missing identifiers against the local git
//! repository and the remote forge, and plans the provider-specific request
//! that posts the comment. Network and filesystem work is left to the caller;
//! every decision along the way is made here, under contract.

pub mod comment;
pub mod error;
pub mod forge;
pub mod state;
pub mod target;
pub mod text;

pub use error::ForgeError;
pub use error::OrchestrationError;
pub use error::ParseError;
pub use error::StateError;
