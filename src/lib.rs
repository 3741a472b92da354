//! A queryable registry of the projects found under a workspace root, with
//! the request dispatcher that answers tool calls against it.
//!
//! Discovery walks the tree and reads files outside this library; it hands
//! the loaded descriptors to `Registry::build`, and the tools answer from
//! that registry.
pub mod concepts;
pub mod config;
pub mod format;
pub mod protocol;
pub mod registry;
pub mod server;
pub mod setup;
pub mod text;
pub mod tools;
pub mod workspace;
