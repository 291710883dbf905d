//! A small client library for a git-hosting REST API: bearer-token
//! credentials, request construction (paths, JSON bodies) and response
//! handling (status classification, field extraction) for branch lookup,
//! branch creation, blob/tree/commit creation, branch-reference update and
//! pull-request creation, plus the six-step commit-assembly sequence that
//! chains them.
//!
//! The HTTP transport itself lives outside this crate: every operation here
//! is split into a pure request builder and a pure response handler, so the
//! interesting logic is ordinary code on strings and enums.

pub mod assembly;
pub mod auth;
pub mod client;
pub mod errors;
pub mod json;
pub mod response;

pub use auth::AuthToken;
