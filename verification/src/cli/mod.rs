//! What the command line means, once it is parsed.

pub mod args;
pub mod completions;
pub mod guard;
