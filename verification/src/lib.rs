//! Scaffolding a new project from a remote template, as a verified core.
//!
//! The library holds the decision logic of the scaffolding tool: project-name
//! validation, interpretation of the registration service's responses, the
//! bounded re-authentication policy of the API client, template selection,
//! the scaffolding saga with its append-only effect log, and the compensation
//! plan derived from that log. Everything that touches the outside world
//! (prompts, HTTP, the version-control tool, the credential cache file) lives
//! in the surrounding application, which drives these state machines and
//! feeds their outcomes back as plain values.

pub mod auth;
pub mod catalog;
pub mod effects;
pub mod error;
pub mod service;
pub mod model;
pub mod saga;
pub mod validate;
