//! The provider protocol: the message shapes the adapter fills in, the
//! conversion of incidents into protocol incidents, and the ergonomic
//! `Provider` trait with its adapter.

pub mod proto;
pub mod provider;

use vstd::prelude::*;

use crate::incident::{ExternalLink, Incident, Location, Position};
use proto::IncidentContext;

verus! {

/// The protocol form of an incident's links: each link's URL and title.
fn convert_links(links: &Vec<ExternalLink>) -> (converted: Vec<ExternalLink>)
    ensures
        converted@ == links@,
{
    let mut converted: Vec<ExternalLink> = Vec::new();
    let mut i: usize = 0;
    while i < links.len()
        invariant
            i <= links@.len(),
            converted@ == links@.take(i as int),
        decreases links@.len() - i,
    {
        converted.push(ExternalLink { url: links[i].url.clone(), title: links[i].title.clone() });
        i = i + 1;
        assert(converted@ == links@.take(i as int));
    }
    assert(links@.take(links@.len() as int) == links@);
    converted
}

impl IncidentContext {
    /// Whether `context` is the protocol form of `incident`: the same file,
    /// effort, location, links and dependency flag, the line number widened
    /// to 64 bits, and the variables present only when there are any.
    pub open spec fn represents(context: IncidentContext, incident: Incident) -> bool {
        &&& context.file_uri == incident.file_uri
        &&& context.effort == incident.effort
        &&& context.code_location == incident.code_location
        &&& context.line_number == (match incident.line_number {
            Some(n) => Some(n as i64),
            None => None,
        })
        &&& (incident.variables@.is_empty() ==> context.variables is None)
        &&& (!incident.variables@.is_empty() ==> (context.variables matches Some(v) && v@
            == incident.variables@))
        &&& context.links@ == incident.links@
        &&& context.is_dependency_incident == incident.is_dependency_incident
    }

    /// Convert an incident into its protocol form.
    pub fn from_incident(incident: &Incident) -> (context: IncidentContext)
        ensures
            IncidentContext::represents(context, *incident),
    {
        let variables = if incident.variables.is_empty() {
            None
        } else {
            Some(incident.variables.clone())
        };
        let code_location = match &incident.code_location {
            Some(loc) => Some(
                Location {
                    start: Position { line: loc.start.line, character: loc.start.character },
                    end: Position { line: loc.end.line, character: loc.end.character },
                },
            ),
            None => None,
        };
        let line_number = match incident.line_number {
            Some(n) => Some(n as i64),
            None => None,
        };
        IncidentContext {
            file_uri: incident.file_uri.clone(),
            effort: incident.effort,
            code_location,
            line_number,
            variables,
            links: convert_links(&incident.links),
            is_dependency_incident: incident.is_dependency_incident,
        }
    }
}

} // verus!
