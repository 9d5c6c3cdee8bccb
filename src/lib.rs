//! Bundles the files of a directory tree into one marker-delimited stream.
//!
//! The library decides, for each entry met while walking a tree, whether it
//! is skipped, descended into or emitted, and renders the block that an
//! emitted file contributes to the output. Reading directories and files is
//! left to the caller.
pub mod block;
pub mod cli;
pub mod laws;
pub mod path_filter;
pub mod walk;

pub use cli::Args;
