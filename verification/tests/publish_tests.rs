use rover::composition::CompositionError;
use rover::publish::{
    build_response, get_publish_response_from_data, CompositionConfig, PublishPartialSchemaResponse,
    PublishResponseData, PublishServiceData, UpdateResponse,
};
use rover::push::{handle_response, GatewayNote, ServiceNote};
use rover::service::{GraphVariant, ImplementingServices, ServiceInfo};

fn err(message: &str) -> Option<CompositionError> {
    Some(CompositionError {
        message: message.to_string(),
    })
}

#[test]
fn build_response_works_with_composition_errors() {
    let update_response = UpdateResponse {
        composition_config: Some(CompositionConfig {
            schema_hash: "5gf564".to_string(),
        }),
        errors: vec![
            err("[Accounts] User -> composition error"),
            // an absent entry is technically allowed in the response
            None,
            err("[Products] Product -> another one"),
        ],
        did_update_gateway: false,
        service_was_created: true,
    };
    let output = build_response(update_response);

    assert_eq!(
        output,
        PublishPartialSchemaResponse {
            schema_hash: Some("5gf564".to_string()),
            composition_errors: Some(vec![
                "[Accounts] User -> composition error".to_string(),
                "[Products] Product -> another one".to_string()
            ]),
            did_update_gateway: false,
            service_was_created: true,
        }
    );
}

#[test]
fn build_response_works_with_successful_composition() {
    let update_response = UpdateResponse {
        composition_config: Some(CompositionConfig {
            schema_hash: "5gf564".to_string(),
        }),
        errors: vec![],
        did_update_gateway: true,
        service_was_created: true,
    };
    let output = build_response(update_response);

    assert_eq!(
        output,
        PublishPartialSchemaResponse {
            schema_hash: Some("5gf564".to_string()),
            composition_errors: None,
            did_update_gateway: true,
            service_was_created: true,
        }
    );
}

// this case can happen when there are failures on the initial publish
// before composing: no schema hash to return, and no service created
#[test]
fn build_response_works_with_failure_and_no_hash() {
    let update_response = UpdateResponse {
        composition_config: None,
        errors: vec![err("[Accounts] -> Things went really wrong")],
        did_update_gateway: false,
        service_was_created: false,
    };
    let output = build_response(update_response);

    assert_eq!(
        output,
        PublishPartialSchemaResponse {
            schema_hash: None,
            composition_errors: Some(vec![
                "[Accounts] -> Things went really wrong".to_string()
            ]),
            did_update_gateway: false,
            service_was_created: false,
        }
    );
}

#[test]
fn handle_response_doesnt_error_with_all_successes() {
    let response = PublishPartialSchemaResponse {
        schema_hash: Some("123456".to_string()),
        did_update_gateway: true,
        service_was_created: true,
        composition_errors: None,
    };

    handle_response(response, "accounts", "my-graph");
}

#[test]
fn handle_response_doesnt_error_with_all_failures() {
    let response = PublishPartialSchemaResponse {
        schema_hash: None,
        did_update_gateway: false,
        service_was_created: false,
        composition_errors: Some(vec![
            "a bad thing happened".to_string(),
            "another bad thing".to_string(),
        ]),
    };

    handle_response(response, "accounts", "my-graph");
}

#[test]
fn handle_response_reports_creation_and_gateway_update() {
    let response = PublishPartialSchemaResponse {
        schema_hash: Some("123456".to_string()),
        did_update_gateway: true,
        service_was_created: true,
        composition_errors: None,
    };

    let summary = handle_response(response, "accounts", "my-graph");
    assert_eq!(summary.subgraph, "accounts");
    assert_eq!(summary.graph, "my-graph");
    assert_eq!(summary.service_note, ServiceNote::Created);
    assert_eq!(summary.gateway_note, GatewayNote::Updated);
    assert_eq!(summary.composition_errors, None);
}

#[test]
fn handle_response_reports_update_and_unchanged_gateway() {
    let response = PublishPartialSchemaResponse {
        schema_hash: None,
        did_update_gateway: false,
        service_was_created: false,
        composition_errors: Some(vec!["a bad thing happened".to_string()]),
    };

    let summary = handle_response(response, "accounts", "my-graph");
    assert_eq!(summary.service_note, ServiceNote::Updated);
    assert_eq!(summary.gateway_note, GatewayNote::Unchanged);
    assert_eq!(
        summary.composition_errors,
        Some(vec!["a bad thing happened".to_string()])
    );
}

#[test]
fn publish_guard_passes_federated_response_through() {
    let update = UpdateResponse {
        composition_config: Some(CompositionConfig {
            schema_hash: "5gf564".to_string(),
        }),
        errors: vec![],
        did_update_gateway: true,
        service_was_created: false,
    };
    let data = PublishResponseData {
        service: Some(PublishServiceData {
            service: ServiceInfo {
                implementing_services: ImplementingServices::Federated,
                variants: vec![],
            },
            upsert_implementing_service_and_trigger_composition: update.clone(),
        }),
    };

    let got = get_publish_response_from_data(data, "my-graph".to_string(), "current".to_string());
    assert_eq!(got, Ok(update));
}

#[test]
fn publish_guard_rejects_missing_service() {
    let data = PublishResponseData { service: None };
    let got = get_publish_response_from_data(data, "my-graph".to_string(), "current".to_string());
    assert_eq!(
        got,
        Err(rover::error::RoverClientError::NoService {
            graph: "my-graph".to_string()
        })
    );
}

#[test]
fn publish_guard_rejects_non_federated_graph() {
    let data = PublishResponseData {
        service: Some(PublishServiceData {
            service: ServiceInfo {
                implementing_services: ImplementingServices::NonFederated,
                variants: vec![GraphVariant {
                    name: "current".to_string(),
                }],
            },
            upsert_implementing_service_and_trigger_composition: UpdateResponse {
                composition_config: None,
                errors: vec![],
                did_update_gateway: false,
                service_was_created: false,
            },
        }),
    };
    let got = get_publish_response_from_data(data, "my-graph".to_string(), "current".to_string());
    assert_eq!(
        got,
        Err(rover::error::RoverClientError::ExpectedFederatedGraph {
            graph: "my-graph".to_string()
        })
    );
}
