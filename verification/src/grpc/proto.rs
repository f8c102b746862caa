//! The messages of the provider protocol that the adapter fills in, as plain
//! values: positions are the integers that the wire format's numbers are
//! converted from, and JSON variables are carried as `serde_json` values.

use std::collections::BTreeMap;
use vstd::prelude::*;

use crate::incident::{ExternalLink, Location};

verus! {

/// One capability of a provider.
#[derive(Debug)]
pub struct Capability {
    pub name: String,
}

/// The reply to an `init` request.
#[derive(Debug)]
pub struct InitResponse {
    pub error: String,
    pub successful: bool,
    pub id: i64,
}

/// An incident as the protocol reports it.
#[derive(Debug)]
pub struct IncidentContext {
    pub file_uri: String,
    pub effort: Option<i64>,
    pub code_location: Option<Location>,
    pub line_number: Option<i64>,
    /// Provider-specific variables; absent when the incident has none.
    pub variables: Option<BTreeMap<String, serde_json::Value>>,
    pub links: Vec<ExternalLink>,
    pub is_dependency_incident: bool,
}

/// The outcome of a successful evaluation.
#[derive(Debug)]
pub struct ProviderEvaluateResponse {
    pub matched: bool,
    pub incident_contexts: Vec<IncidentContext>,
}

/// The reply to an `evaluate` request.
#[derive(Debug)]
pub struct EvaluateResponse {
    pub error: String,
    pub successful: bool,
    pub response: Option<ProviderEvaluateResponse>,
}

/// The code location of a code-snippet request, each part present only if
/// the client sent it.
#[derive(Debug)]
pub struct CodeLocationRequest {
    pub start_position: Option<crate::incident::Position>,
    pub end_position: Option<crate::incident::Position>,
}

/// A request for the code snippet around a location of a file.
#[derive(Debug)]
pub struct GetCodeSnipRequest {
    pub uri: String,
    pub code_location: Option<CodeLocationRequest>,
}

/// The status with which a request fails.
#[derive(Debug)]
pub enum Status {
    /// The request lacks a part it must have.
    InvalidArgument { message: String },
    /// The provider failed while serving the request.
    Internal { message: String },
}

/// The reply to a request for a provider's dependencies. The adapter reports
/// none, so the reply carries only its outcome.
#[derive(Debug)]
pub struct DependencyResponse {
    pub successful: bool,
    pub error: String,
}

/// The reply to a request for a provider's dependency graph. The adapter
/// reports none, so the reply carries only its outcome.
#[derive(Debug)]
pub struct DependencyDagResponse {
    pub successful: bool,
    pub error: String,
}

/// The reply to a notification of changed files.
#[derive(Debug)]
pub struct NotifyFileChangesResponse {
    pub error: String,
}

/// The reply to a request to prepare a provider.
#[derive(Debug)]
pub struct PrepareResponse {
    pub error: String,
}

/// One event of the progress of a provider's preparation.
#[derive(Debug)]
pub struct ProgressEvent {
    /// The kind of event, as the protocol numbers it.
    pub kind: i32,
    pub provider_name: String,
    pub files_processed: i64,
    pub total_files: i64,
}

} // verus!
