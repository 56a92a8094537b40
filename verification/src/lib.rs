//! Coordination hub for code-intelligence workers: authentication of
//! connections, the worker registry, per-connection sessions with their fail-open RPC
//! rules, and the job-run records they report on.

pub mod text;
pub mod hub;
pub mod oauth;
pub mod registry;
pub mod schema;
