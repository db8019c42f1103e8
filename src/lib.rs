//! Safe, verified boundary logic between a host program and the libgit2
//! engine: status and error translation, path marshalling, repository
//! state decoding and revision-spec classification.

pub mod error;
pub mod marshal;
pub mod state;
pub mod revspec;
