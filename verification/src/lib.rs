//! A cargo backend for a multi-backend tool/version manager.
//!
//! Given a package name, the library discovers the set of installable
//! versions from the crates.io sparse index, caches that discovery, and
//! translates a requested version into a concrete `cargo` (or
//! `cargo-binstall`) invocation for an external executor to run.

pub mod errors;
pub mod strutil;
pub mod version_spec;
pub mod cache;
pub mod source;
pub mod registry;
pub mod install;
pub mod backend;
