//! The ergonomic `Provider` trait for implementing providers, and the adapter
//! that turns its results into protocol replies.

use std::sync::Arc;
use vstd::prelude::*;

use super::proto::{
    Capability, CodeLocationRequest, DependencyDagResponse, DependencyResponse, EvaluateResponse,
    GetCodeSnipRequest, IncidentContext, InitResponse, NotifyFileChangesResponse, PrepareResponse,
    ProgressEvent, ProviderEvaluateResponse, Status,
};
use crate::incident::{Incident, Location, Position};

verus! {

/// Error type for provider operations.
#[derive(Debug)]
pub struct ProviderError {
    pub message: String,
}

impl ProviderError {
    /// Create an error carrying `message`.
    pub fn new(message: &str) -> (error: Self)
        ensures
            error.message@ == message@,
    {
        ProviderError { message: message.to_owned() }
    }

    /// The text by which the error is displayed: its message.
    pub fn to_string(&self) -> (text: String)
        ensures
            text@ == self.message@,
    {
        self.message.clone()
    }
}

/// Information about a provider capability.
#[derive(Debug)]
pub struct CapabilityInfo {
    pub name: String,
}

impl Clone for CapabilityInfo {
    fn clone(&self) -> (copy: Self)
        ensures
            copy == *self,
    {
        CapabilityInfo { name: self.name.clone() }
    }
}

/// Result of evaluating a condition.
#[derive(Debug)]
pub struct EvaluateResult {
    /// Whether any incidents were found.
    pub matched: bool,
    /// The incidents found.
    pub incidents: Vec<Incident>,
}

/// The trait a provider implementor writes, with plain Rust types; the
/// adapter converts its results into protocol replies.
pub trait Provider: Send + Sync + 'static {
    /// Return the list of capabilities this provider supports.
    fn capabilities(&self) -> Vec<CapabilityInfo>;

    /// Initialize the provider with a project location.
    fn init(&self, location: &str) -> Result<(), ProviderError>;

    /// Evaluate a condition and return matching incidents.
    fn evaluate(&self, capability: &str, condition: &str) -> Result<EvaluateResult, ProviderError>;

    /// Stop the provider. Does nothing unless the implementor says otherwise.
    fn stop(&self) {
    }

    /// Get a code snippet for a file location. Gives an empty snippet unless
    /// the implementor says otherwise.
    fn get_code_snip(&self, _uri: &str, _location: &Location, _context_lines: usize) -> (snip:
        Result<String, ProviderError>)
        default_ensures
            (snip matches Ok(text) && text@ == Seq::<char>::empty()),
    {
        Ok(String::new())
    }
}

/// Whether `capabilities` is the protocol form of `caps`: each capability's
/// name, in order.
pub open spec fn is_capabilities_response(capabilities: Seq<Capability>, caps: Seq<CapabilityInfo>) -> bool {
    &&& capabilities.len() == caps.len()
    &&& forall|i: int| 0 <= i < caps.len() ==> #[trigger] capabilities[i].name == caps[i].name
}

/// Whether `response` is the reply to `init` for the provider's `result`:
/// success with id 1, or the error's message with id 0.
pub open spec fn is_init_response(response: InitResponse, result: Result<(), ProviderError>) -> bool {
    match result {
        Ok(()) => response.error@ == Seq::<char>::empty() && response.successful && response.id == 1,
        Err(e) => response.error@ == e.message@ && !response.successful && response.id == 0,
    }
}

/// Whether `response` is the reply to `evaluate` for the provider's `result`:
/// on success, whether it matched and the protocol form of each incident; on
/// failure, the error's message and no response.
pub open spec fn is_evaluate_response(response: EvaluateResponse, result: Result<EvaluateResult, ProviderError>) -> bool {
    match result {
        Ok(r) => {
            &&& response.error@ == Seq::<char>::empty()
            &&& response.successful
            &&& response.response matches Some(out) && {
                &&& out.matched == r.matched
                &&& out.incident_contexts@.len() == r.incidents@.len()
                &&& forall|i: int|
                    0 <= i < r.incidents@.len() ==> IncidentContext::represents(
                        #[trigger] out.incident_contexts@[i],
                        r.incidents@[i],
                    )
            }
        },
        Err(e) => response.error@ == e.message@ && !response.successful && response.response is None,
    }
}

/// The protocol form of a provider's capabilities: each capability's name,
/// in order.
pub fn capabilities_response(caps: Vec<CapabilityInfo>) -> (capabilities: Vec<Capability>)
    ensures
        is_capabilities_response(capabilities@, caps@),
{
    let mut capabilities: Vec<Capability> = Vec::new();
    let mut i: usize = 0;
    while i < caps.len()
        invariant
            i <= caps@.len(),
            capabilities@.len() == i,
            forall|j: int| 0 <= j < i ==> #[trigger] capabilities@[j].name == caps@[j].name,
        decreases caps@.len() - i,
    {
        capabilities.push(Capability { name: caps[i].name.clone() });
        i = i + 1;
    }
    capabilities
}

/// The reply to `init` for what the provider's `init` returned: success with
/// id 1, or the error's message with id 0.
pub fn init_response(result: Result<(), ProviderError>) -> (response: InitResponse)
    ensures
        is_init_response(response, result),
{
    match result {
        Ok(()) => InitResponse { error: String::new(), successful: true, id: 1 },
        Err(e) => InitResponse { error: e.to_string(), successful: false, id: 0 },
    }
}

/// The protocol form of each incident, in order.
fn incident_contexts(incidents: &Vec<Incident>) -> (contexts: Vec<IncidentContext>)
    ensures
        contexts@.len() == incidents@.len(),
        forall|i: int|
            0 <= i < incidents@.len() ==> IncidentContext::represents(
                #[trigger] contexts@[i],
                incidents@[i],
            ),
{
    let mut contexts: Vec<IncidentContext> = Vec::new();
    let mut i: usize = 0;
    while i < incidents.len()
        invariant
            i <= incidents@.len(),
            contexts@.len() == i,
            forall|j: int|
                0 <= j < i ==> IncidentContext::represents(#[trigger] contexts@[j], incidents@[j]),
        decreases incidents@.len() - i,
    {
        contexts.push(IncidentContext::from_incident(&incidents[i]));
        i = i + 1;
    }
    contexts
}

/// The reply to `evaluate` for what the provider's `evaluate` returned: on
/// success, whether it matched and the protocol form of each incident; on
/// failure, the error's message and no response.
pub fn evaluate_response(result: Result<EvaluateResult, ProviderError>) -> (response: EvaluateResponse)
    ensures
        is_evaluate_response(response, result),
{
    match result {
        Ok(r) => EvaluateResponse {
            error: String::new(),
            successful: true,
            response: Some(
                ProviderEvaluateResponse {
                    matched: r.matched,
                    incident_contexts: incident_contexts(&r.incidents),
                },
            ),
        },
        Err(e) => EvaluateResponse { error: e.to_string(), successful: false, response: None },
    }
}

/// Whether a code-snippet request carries its location with both positions.
pub open spec fn location_sent(code_location: Option<CodeLocationRequest>) -> bool {
    code_location matches Some(req) && req.start_position is Some && req.end_position is Some
}

/// The message with which a code-snippet request is refused: when its
/// location is missing, or its start or end position; none for a request
/// that carries all three.
pub open spec fn location_refusal(code_location: Option<CodeLocationRequest>) -> Option<Seq<char>> {
    match code_location {
        None => Some("no code location sent"@),
        Some(req) => match (req.start_position, req.end_position) {
            (None, _) => Some("no start position sent"@),
            (Some(_), None) => Some("no end position sent"@),
            (Some(_), Some(_)) => None,
        },
    }
}

/// The location that a complete code-snippet request asks for: from its
/// start position to its end position.
pub open spec fn sent_location(code_location: Option<CodeLocationRequest>) -> Location
    recommends
        location_sent(code_location),
{
    Location {
        start: code_location.unwrap().start_position.unwrap(),
        end: code_location.unwrap().end_position.unwrap(),
    }
}

/// Whether `response` refuses a request as an invalid argument with `message`.
pub open spec fn is_refusal<R>(response: Result<R, Status>, message: Seq<char>) -> bool {
    response matches Err(Status::InvalidArgument { message: text }) && text@ == message
}

/// The location of a code-snippet request, or the status that refuses a
/// request lacking its location or one of its two positions.
pub fn requested_location(code_location: &Option<CodeLocationRequest>) -> (location: Result<Location, Status>)
    ensures
        match location_refusal(*code_location) {
            Some(message) => is_refusal(location, message),
            None => location == Ok::<Location, Status>(sent_location(*code_location)),
        },
        location_sent(*code_location) <==> location_refusal(*code_location) is None,
{
    proof {
        reveal_strlit("no code location sent");
        reveal_strlit("no start position sent");
        reveal_strlit("no end position sent");
    }
    match code_location {
        None => Err(Status::InvalidArgument { message: "no code location sent".to_owned() }),
        Some(req) => match &req.start_position {
            None => Err(Status::InvalidArgument { message: "no start position sent".to_owned() }),
            Some(start) => match &req.end_position {
                None => Err(Status::InvalidArgument { message: "no end position sent".to_owned() }),
                Some(end) => Ok(
                    Location {
                        start: Position { line: start.line, character: start.character },
                        end: Position { line: end.line, character: end.character },
                    },
                ),
            },
        },
    }
}

/// Whether `response` is the reply to a code-snippet request for what the
/// provider's `get_code_snip` returned: the snippet, or an internal status
/// carrying the error's message.
pub open spec fn is_code_snip_response(
    response: Result<String, Status>,
    result: Result<String, ProviderError>,
) -> bool {
    match result {
        Ok(snip) => response == Ok::<String, Status>(snip),
        Err(e) => (response matches Err(Status::Internal { message }) && message@ == e.message@),
    }
}

/// The reply to a code-snippet request for what the provider's
/// `get_code_snip` returned: the snippet, or an internal status carrying the
/// error's message.
pub fn code_snip_response(result: Result<String, ProviderError>) -> (response: Result<String, Status>)
    ensures
        is_code_snip_response(response, result),
{
    match result {
        Ok(snip) => Ok(snip),
        Err(e) => Err(Status::Internal { message: e.to_string() }),
    }
}

/// Adapter between the ergonomic `Provider` trait and the provider protocol.
pub struct ProviderAdapter<T: Provider> {
    inner: Arc<T>,
}

impl<T: Provider> ProviderAdapter<T> {
    /// Wrap a provider.
    pub fn new(inner: Arc<T>) -> (adapter: Self)
        ensures
            adapter.provider() == inner,
    {
        ProviderAdapter { inner }
    }

    /// The wrapped provider.
    pub closed spec fn provider(&self) -> Arc<T> {
        self.inner
    }

    /// The provider's capabilities, each by its name.
    pub fn capabilities(&self) -> (capabilities: Vec<Capability>)
        ensures
            exists|caps: Vec<CapabilityInfo>|
                call_ensures(T::capabilities, (&*self.provider(),), caps)
                    && is_capabilities_response(capabilities@, caps@),
    {
        let provider: &T = &self.inner;
        let caps = provider.capabilities();
        let ghost returned = caps;
        assert(call_ensures(T::capabilities, (&*self.provider(),), returned));
        capabilities_response(caps)
    }

    /// Initialize the provider with a project location.
    pub fn init(&self, location: &str) -> (response: InitResponse)
        ensures
            exists|result: Result<(), ProviderError>|
                call_ensures(T::init, (&*self.provider(), location), result)
                    && is_init_response(response, result),
            response.successful ==> response.error@ == Seq::<char>::empty() && response.id == 1,
            !response.successful ==> response.id == 0,
    {
        let provider: &T = &self.inner;
        let result = provider.init(location);
        let ghost returned = result;
        assert(call_ensures(T::init, (&*self.provider(), location), returned));
        init_response(result)
    }

    /// Evaluate a condition with the provider.
    pub fn evaluate(&self, capability: &str, condition: &str) -> (response: EvaluateResponse)
        ensures
            exists|result: Result<EvaluateResult, ProviderError>|
                call_ensures(T::evaluate, (&*self.provider(), capability, condition), result)
                    && is_evaluate_response(response, result),
            response.successful ==> response.error@ == Seq::<char>::empty() && response.response is Some,
            !response.successful ==> response.response is None,
    {
        let provider: &T = &self.inner;
        let result = provider.evaluate(capability, condition);
        let ghost returned = result;
        assert(call_ensures(T::evaluate, (&*self.provider(), capability, condition), returned));
        evaluate_response(result)
    }

    /// Stop the provider.
    pub fn stop(&self)
        ensures
            call_ensures(T::stop, (&*self.provider(),), ()),
    {
        let provider: &T = &self.inner;
        provider.stop();
    }

    /// The code snippet around the requested location, with three lines of
    /// context, as the provider renders it. A request lacking its location
    /// or one of its positions is refused without asking the provider.
    pub fn get_code_snip(&self, request: &GetCodeSnipRequest) -> (response: Result<String, Status>)
        ensures
            location_refusal(request.code_location) matches Some(message) ==> is_refusal(
                response,
                message,
            ),
            location_refusal(request.code_location) is None ==> exists|
                uri: &str,
                result: Result<String, ProviderError>,
            |
                uri@ == request.uri@ && call_ensures(
                    T::get_code_snip,
                    (&*self.provider(), uri, &sent_location(request.code_location), 3usize),
                    result,
                ) && is_code_snip_response(response, result),
    {
        let location = match requested_location(&request.code_location) {
            Ok(location) => location,
            Err(status) => return Err(status),
        };
        let provider: &T = &self.inner;
        let uri = request.uri.as_str();
        let result = provider.get_code_snip(uri, &location, 3);
        let ghost returned = result;
        assert(call_ensures(
            T::get_code_snip,
            (&*self.provider(), uri, &sent_location(request.code_location), 3usize),
            returned,
        ));
        code_snip_response(result)
    }

    /// The provider's dependencies: the adapter reports none, successfully.
    pub fn get_dependencies(&self) -> (response: DependencyResponse)
        ensures
            response.successful,
            response.error@ == Seq::<char>::empty(),
    {
        DependencyResponse { successful: true, error: String::new() }
    }

    /// The provider's dependency graph: the adapter reports none, successfully.
    pub fn get_dependencies_dag(&self) -> (response: DependencyDagResponse)
        ensures
            response.successful,
            response.error@ == Seq::<char>::empty(),
    {
        DependencyDagResponse { successful: true, error: String::new() }
    }

    /// A notification of changed files is acknowledged without error.
    pub fn notify_file_changes(&self) -> (response: NotifyFileChangesResponse)
        ensures
            response.error@ == Seq::<char>::empty(),
    {
        NotifyFileChangesResponse { error: String::new() }
    }

    /// A request to prepare is acknowledged without error.
    pub fn prepare(&self) -> (response: PrepareResponse)
        ensures
            response.error@ == Seq::<char>::empty(),
    {
        PrepareResponse { error: String::new() }
    }

    /// The progress of preparation: a single event of kind 0 from
    /// "provider", with no files processed out of none.
    pub fn stream_prepare_progress(&self) -> (events: Vec<ProgressEvent>)
        ensures
            events@.len() == 1,
            events@[0].kind == 0,
            events@[0].provider_name@ == "provider"@,
            events@[0].files_processed == 0,
            events@[0].total_files == 0,
    {
        let mut events: Vec<ProgressEvent> = Vec::new();
        events.push(
            ProgressEvent {
                kind: 0,
                provider_name: "provider".to_owned(),
                files_processed: 0,
                total_files: 0,
            },
        );
        events
    }
}

} // verus!
