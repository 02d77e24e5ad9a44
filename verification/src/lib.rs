//! Parsers for serde-style naming annotations (`rename`, `rename_all`, `alias`).
//!
//! An annotation is handed over as a small syntax tree ([`meta::Meta`])
//! expressing `key = "value"` assignments and parenthesized lists of such
//! assignments.  Each parser walks one node, recognizes its fixed keyword
//! vocabulary and returns a typed result, or a structured error that points
//! at the offending part of the node.

pub mod alias;
pub mod meta;
pub mod rename;
pub mod rename_all;

pub use alias::Alias;
pub use rename::Rename;
pub use rename::RenameIndependent;
pub use rename_all::RenameAll;
pub use rename_all::RenameAllIndependent;
pub use rename_all::RenameRule;
