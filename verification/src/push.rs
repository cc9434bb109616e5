//! The push command's report on a publish outcome.
//!
//! The command tells the user three things, in order: whether the
//! subgraph was created or updated, whether the gateway picked up a new
//! composed schema, and — only when there are any — the composition
//! errors. This module decides the report; printing it belongs to the
//! caller.

use vstd::prelude::*;
use crate::publish::PublishPartialSchemaResponse;

verus! {

broadcast use vstd::string::group_string_axioms;

/// Whether the push created the subgraph or updated an existing one.
#[derive(Clone, Copy, Debug, PartialEq, Eq, Structural)]
pub enum ServiceNote {
    Created,
    Updated,
}

/// Whether the gateway was updated with a newly composed schema.
#[derive(Clone, Copy, Debug, PartialEq, Eq, Structural)]
pub enum GatewayNote {
    Updated,
    Unchanged,
}

/// The push command's report, ready for rendering: the names involved,
/// the two notes, and the composition errors when there are any.
#[derive(Clone, Debug, PartialEq, Eq)]
pub struct PushSummary {
    pub subgraph: String,
    pub graph: String,
    pub service_note: ServiceNote,
    pub gateway_note: GatewayNote,
    pub composition_errors: Option<Vec<String>>,
}

/// Decides the push report for a publish outcome: the creation and
/// gateway notes follow the response's flags exactly, and the
/// composition errors are passed through untouched.
pub fn handle_response(response: PublishPartialSchemaResponse, subgraph: &str, graph: &str) -> (r:
    PushSummary)
    ensures
        r.subgraph@ == subgraph@,
        r.graph@ == graph@,
        r.service_note is Created <==> response.service_was_created,
        r.gateway_note is Updated <==> response.did_update_gateway,
        r.composition_errors == response.composition_errors,
{
    let service_note = if response.service_was_created {
        ServiceNote::Created
    } else {
        ServiceNote::Updated
    };
    let gateway_note = if response.did_update_gateway {
        GatewayNote::Updated
    } else {
        GatewayNote::Unchanged
    };
    PushSummary {
        subgraph: subgraph.to_string(),
        graph: graph.to_string(),
        service_note,
        gateway_note,
        composition_errors: response.composition_errors,
    }
}

} // verus!
