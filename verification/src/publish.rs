//! Classification of a subgraph-publish response.
//!
//! Past the federation guard, a publish response always yields an
//! outcome: a schema hash exactly when the composition config is
//! present (an absent config is "no hash available", not an error),
//! the gateway-update and creation flags copied verbatim, and the
//! extracted composition errors — absent exactly when the cleaned list
//! is empty.

use vstd::prelude::*;
use crate::composition::{extract, extracted, CompositionError};
use crate::error::{ErrorModel, RoverClientError};
use crate::service::{guard_error, validate, ServiceInfo};

verus! {

/// The deserialized envelope of a publish response: the service record,
/// if the registry has one for the requested graph.
#[derive(Clone, Debug, PartialEq, Eq)]
pub struct PublishResponseData {
    pub service: Option<PublishServiceData>,
}

/// The service record of a publish response.
#[derive(Clone, Debug, PartialEq, Eq)]
pub struct PublishServiceData {
    pub service: ServiceInfo,
    pub upsert_implementing_service_and_trigger_composition: UpdateResponse,
}

/// What the upsert-and-compose mutation reports back.
#[derive(Clone, Debug, PartialEq, Eq)]
pub struct UpdateResponse {
    pub composition_config: Option<CompositionConfig>,
    pub errors: Vec<Option<CompositionError>>,
    pub did_update_gateway: bool,
    pub service_was_created: bool,
}

/// The composition config, present when composition produced a schema.
#[derive(Clone, Debug, PartialEq, Eq)]
pub struct CompositionConfig {
    pub schema_hash: String,
}

/// The publish outcome handed to the renderer.
#[derive(Clone, Debug, PartialEq, Eq)]
pub struct PublishPartialSchemaResponse {
    pub schema_hash: Option<String>,
    pub did_update_gateway: bool,
    pub service_was_created: bool,
    pub composition_errors: Option<Vec<String>>,
}

/// What the guard makes of a publish envelope: absent when the
/// response may proceed to an outcome.
pub open spec fn publish_guard_error(
    data: PublishResponseData,
    graph: Seq<char>,
    invalid_variant: Seq<char>,
) -> Option<ErrorModel> {
    match data.service {
        None => Some(ErrorModel::NoService { graph }),
        Some(service) => guard_error(service.service, graph, invalid_variant),
    }
}

/// Runs a publish envelope through the federation guard and hands back
/// the mutation's report: success exactly when the graph exists and is
/// federated with a schema under the requested variant, and then
/// exactly the report the response carried.
pub fn get_publish_response_from_data(
    data: PublishResponseData,
    graph: String,
    invalid_variant: String,
) -> (r: Result<UpdateResponse, RoverClientError>)
    ensures
        r is Ok <==> publish_guard_error(data, graph@, invalid_variant@) is None,
        r matches Ok(u) ==> u
            == data.service->0.upsert_implementing_service_and_trigger_composition,
        r matches Err(e) ==> publish_guard_error(data, graph@, invalid_variant@) == Some(e@),
{
    let service = match data.service {
        None => {
            return Err(RoverClientError::NoService { graph });
        },
        Some(service) => service,
    };
    match validate(&service.service, &graph, &invalid_variant) {
        Err(e) => Err(e),
        Ok(_) => Ok(service.upsert_implementing_service_and_trigger_composition),
    }
}

/// Builds the publish outcome from the mutation's report. It never
/// fails: the schema hash is present exactly when the composition
/// config is, the two flags are copied verbatim, and the composition
/// errors are the extracted messages — absent exactly when the
/// extracted list is empty.
pub fn build_response(publish_response: UpdateResponse) -> (r: PublishPartialSchemaResponse)
    ensures
        r.schema_hash == (match publish_response.composition_config {
            Some(config) => Some(config.schema_hash),
            None => None::<String>,
        }),
        r.schema_hash is Some <==> publish_response.composition_config is Some,
        r.did_update_gateway == publish_response.did_update_gateway,
        r.service_was_created == publish_response.service_was_created,
        r.composition_errors is Some <==> extracted(publish_response.errors@).len() != 0,
        r.composition_errors matches Some(messages) ==> messages@.map_values(|m: String| m@)
            == extracted(publish_response.errors@),
{
    let messages = extract(&publish_response.errors);
    proof {
        assert(messages@.len() == extracted(publish_response.errors@).len());
    }
    let composition_errors: Option<Vec<String>> = if messages.len() != 0 {
        Some(messages)
    } else {
        None
    };
    PublishPartialSchemaResponse {
        schema_hash: match publish_response.composition_config {
            Some(config) => Some(config.schema_hash),
            None => None,
        },
        did_update_gateway: publish_response.did_update_gateway,
        service_was_created: publish_response.service_was_created,
        composition_errors,
    }
}

} // verus!
