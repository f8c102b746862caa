//! Shared types and rule logic for Konveyor-compatible migration tooling.
//!
//! - [`incident`] -- incident types and line-numbered code snippets.
//! - [`rule`] -- rule definition types and the logic that reads conditions.
//! - [`fix`] -- fix strategy types and their extraction from rules.
//! - [`grpc`] -- the provider protocol's messages, the `Provider` trait and
//!   its adapter.
//! - [`text`] -- line splitting and decimal rendering.

pub mod fix;
pub mod grpc;
pub mod incident;
pub mod rule;
pub mod text;
