use std::sync::Arc;

use konveyor_core::grpc::proto::{CodeLocationRequest, GetCodeSnipRequest, IncidentContext, Status};
use konveyor_core::grpc::provider::{
    code_snip_response, evaluate_response, init_response, requested_location, CapabilityInfo,
    EvaluateResult, Provider, ProviderAdapter, ProviderError,
};
use konveyor_core::incident::{extract_code_snip, Incident, Location, Position};

fn location(line: u32) -> Location {
    Location {
        start: Position { line, character: 0 },
        end: Position { line, character: 5 },
    }
}

struct Fixture;

impl Provider for Fixture {
    fn capabilities(&self) -> Vec<CapabilityInfo> {
        vec![CapabilityInfo { name: "referenced".to_string() }]
    }

    fn init(&self, location: &str) -> Result<(), ProviderError> {
        if location.is_empty() {
            Err(ProviderError::new("no location"))
        } else {
            Ok(())
        }
    }

    fn evaluate(&self, capability: &str, _condition: &str) -> Result<EvaluateResult, ProviderError> {
        if capability == "referenced" {
            Ok(EvaluateResult {
                matched: true,
                incidents: vec![Incident::new("file:///a.tsx".to_string(), 3, location(2))],
            })
        } else {
            Err(ProviderError::new("unknown capability"))
        }
    }

    fn get_code_snip(&self, _uri: &str, location: &Location, context_lines: usize) -> Result<String, ProviderError> {
        Ok(extract_code_snip("a\nb\nc\nd", location.start.line + 1, context_lines as u32))
    }
}

struct Minimal;

impl Provider for Minimal {
    fn capabilities(&self) -> Vec<CapabilityInfo> {
        vec![]
    }

    fn init(&self, _location: &str) -> Result<(), ProviderError> {
        Ok(())
    }

    fn evaluate(&self, _capability: &str, _condition: &str) -> Result<EvaluateResult, ProviderError> {
        Ok(EvaluateResult { matched: false, incidents: vec![] })
    }
}

#[test]
fn provider_error_carries_its_message() {
    let e = ProviderError::new("boom");
    assert_eq!(e.message, "boom");
    assert_eq!(e.to_string(), "boom");
}

#[test]
fn init_replies() {
    let ok = init_response(Ok(()));
    assert!(ok.successful);
    assert_eq!(ok.id, 1);
    assert_eq!(ok.error, "");
    let err = init_response(Err(ProviderError::new("bad root")));
    assert!(!err.successful);
    assert_eq!(err.id, 0);
    assert_eq!(err.error, "bad root");
}

#[test]
fn evaluate_replies() {
    let incident = Incident::new("file:///x.tsx".to_string(), 7, location(6))
        .with_variable("propName", serde_json::Value::from("isActive"));
    let ok = evaluate_response(Ok(EvaluateResult { matched: true, incidents: vec![incident] }));
    assert!(ok.successful);
    assert_eq!(ok.error, "");
    let out = ok.response.unwrap();
    assert!(out.matched);
    assert_eq!(out.incident_contexts.len(), 1);
    assert_eq!(out.incident_contexts[0].line_number, Some(7i64));
    assert_eq!(out.incident_contexts[0].variables.as_ref().unwrap().len(), 1);

    let err = evaluate_response(Err(ProviderError::new("nope")));
    assert!(!err.successful);
    assert_eq!(err.error, "nope");
    assert!(err.response.is_none());
}

#[test]
fn incident_context_without_variables_has_none() {
    let incident = Incident::new("file:///x.tsx".to_string(), 4, location(3));
    let ctx = IncidentContext::from_incident(&incident);
    assert_eq!(ctx.file_uri, "file:///x.tsx");
    assert!(ctx.variables.is_none());
    assert_eq!(ctx.line_number, Some(4));
    assert_eq!(ctx.code_location.unwrap().end.character, 5);
}

#[test]
fn requested_location_refuses_missing_parts() {
    match requested_location(&None) {
        Err(Status::InvalidArgument { message }) => assert_eq!(message, "no code location sent"),
        other => panic!("unexpected {:?}", other),
    }
    let no_start = Some(CodeLocationRequest { start_position: None, end_position: Some(Position { line: 1, character: 1 }) });
    match requested_location(&no_start) {
        Err(Status::InvalidArgument { message }) => assert_eq!(message, "no start position sent"),
        other => panic!("unexpected {:?}", other),
    }
    let no_end = Some(CodeLocationRequest { start_position: Some(Position { line: 1, character: 1 }), end_position: None });
    match requested_location(&no_end) {
        Err(Status::InvalidArgument { message }) => assert_eq!(message, "no end position sent"),
        other => panic!("unexpected {:?}", other),
    }
    let full = Some(CodeLocationRequest {
        start_position: Some(Position { line: 1, character: 2 }),
        end_position: Some(Position { line: 3, character: 4 }),
    });
    let loc = requested_location(&full).unwrap();
    assert_eq!((loc.start.line, loc.start.character, loc.end.line, loc.end.character), (1, 2, 3, 4));
}

#[test]
fn code_snip_errors_become_internal() {
    match code_snip_response(Err(ProviderError::new("io"))) {
        Err(Status::Internal { message }) => assert_eq!(message, "io"),
        other => panic!("unexpected {:?}", other),
    }
    assert_eq!(code_snip_response(Ok("s".to_string())).unwrap(), "s");
}

#[test]
fn adapter_runs_the_provider() {
    let adapter = ProviderAdapter::new(Arc::new(Fixture));
    let caps = adapter.capabilities();
    assert_eq!(caps.len(), 1);
    assert_eq!(caps[0].name, "referenced");
    assert!(adapter.init("/project").successful);
    let failed = adapter.init("");
    assert!(!failed.successful);
    assert_eq!(failed.error, "no location");
    let eval = adapter.evaluate("referenced", "{}");
    assert!(eval.successful);
    assert_eq!(eval.response.unwrap().incident_contexts[0].file_uri, "file:///a.tsx");
    assert!(!adapter.evaluate("other", "{}").successful);
    let request = GetCodeSnipRequest {
        uri: "file:///a.tsx".to_string(),
        code_location: Some(CodeLocationRequest {
            start_position: Some(Position { line: 1, character: 0 }),
            end_position: Some(Position { line: 1, character: 3 }),
        }),
    };
    assert_eq!(adapter.get_code_snip(&request).unwrap(), "1  a\n2  b\n3  c\n4  d\n");
    let missing = GetCodeSnipRequest { uri: "u".to_string(), code_location: None };
    assert!(matches!(adapter.get_code_snip(&missing), Err(Status::InvalidArgument { .. })));
    adapter.stop();
}

#[test]
fn default_provider_methods() {
    let adapter = ProviderAdapter::new(Arc::new(Minimal));
    let request = GetCodeSnipRequest {
        uri: "u".to_string(),
        code_location: Some(CodeLocationRequest {
            start_position: Some(Position { line: 0, character: 0 }),
            end_position: Some(Position { line: 0, character: 0 }),
        }),
    };
    assert_eq!(adapter.get_code_snip(&request).unwrap(), "");
    adapter.stop();
    assert!(adapter.capabilities().is_empty());
}

#[test]
fn adapter_constant_replies() {
    let adapter = ProviderAdapter::new(Arc::new(Minimal));
    let deps = adapter.get_dependencies();
    assert!(deps.successful);
    assert_eq!(deps.error, "");
    let dag = adapter.get_dependencies_dag();
    assert!(dag.successful);
    assert_eq!(dag.error, "");
    assert_eq!(adapter.notify_file_changes().error, "");
    assert_eq!(adapter.prepare().error, "");
    let events = adapter.stream_prepare_progress();
    assert_eq!(events.len(), 1);
    assert_eq!(events[0].kind, 0);
    assert_eq!(events[0].provider_name, "provider");
    assert_eq!(events[0].files_processed, 0);
    assert_eq!(events[0].total_files, 0);
}

#[test]
fn adapter_refuses_incomplete_requests_with_their_message() {
    let adapter = ProviderAdapter::new(Arc::new(Fixture));
    let no_end = GetCodeSnipRequest {
        uri: "u".to_string(),
        code_location: Some(CodeLocationRequest {
            start_position: Some(Position { line: 0, character: 0 }),
            end_position: None,
        }),
    };
    match adapter.get_code_snip(&no_end) {
        Err(Status::InvalidArgument { message }) => assert_eq!(message, "no end position sent"),
        other => panic!("unexpected {:?}", other),
    }
    let missing = GetCodeSnipRequest { uri: "u".to_string(), code_location: None };
    match adapter.get_code_snip(&missing) {
        Err(Status::InvalidArgument { message }) => assert_eq!(message, "no code location sent"),
        other => panic!("unexpected {:?}", other),
    }
}
