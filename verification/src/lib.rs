//! Task link resolver: turns a task identifier and a project name into a
//! deep-link URL for the first upstream task whose title starts with that
//! identifier.
//!
//! The decision logic lives here, fully verified: decimal formatting of
//! identifiers, the title-prefix match, the project registry lookup, the
//! authentication gate, and the mapping of outcomes to HTTP status codes.
//! Network and process plumbing stay outside the library.

pub mod digits;
pub mod registry;
pub mod resolver;
pub mod text;
