//! Classification of a schema-check response.
//!
//! A validated response has exactly one of two mutually exclusive
//! outcomes: a non-empty list of composition errors, or a check result
//! with a change report. Composition errors take precedence
//! unconditionally; only when there are none must the response carry a
//! check-schema result, whose absence is an upstream contract
//! violation. The optional comparison URL is decorative: when it does
//! not parse, it degrades silently to absent.

use vstd::prelude::*;
use crate::composition::{extract, extracted, CompositionError};
use crate::error::{ErrorModel, RoverClientError};
use crate::output::{
    all_severities_known,
    get_changes,
    mapped_changes,
    Change,
    ChangeModel,
    UpstreamChange,
};
use crate::service::{guard_error, validate, ServiceInfo};

verus! {

broadcast use vstd::string::group_string_axioms;

/// The deserialized envelope of a check response: the service record,
/// if the registry has one for the requested graph.
#[derive(Clone, Debug, PartialEq, Eq)]
pub struct CheckResponseData {
    pub service: Option<CheckServiceData>,
}

/// The service record of a check response.
#[derive(Clone, Debug, PartialEq, Eq)]
pub struct CheckServiceData {
    pub service: ServiceInfo,
    pub check_partial_schema: CheckPartialSchema,
}

/// The outcome-specific part of a check response.
#[derive(Clone, Debug, PartialEq, Eq)]
pub struct CheckPartialSchema {
    pub composition_validation_result: CompositionValidationResult,
    pub check_schema_result: Option<CheckSchemaResult>,
}

/// The composition validation of the proposed schema, with its possibly
/// sparse error list.
#[derive(Clone, Debug, PartialEq, Eq)]
pub struct CompositionValidationResult {
    pub errors: Vec<Option<CompositionError>>,
}

/// The check-schema result: present whenever composition succeeded.
#[derive(Clone, Debug, PartialEq, Eq)]
pub struct CheckSchemaResult {
    pub target_url: Option<String>,
    pub diff_to_previous: DiffToPrevious,
}

/// The change report against the published schema.
#[derive(Clone, Debug, PartialEq, Eq)]
pub struct DiffToPrevious {
    pub number_of_checked_operations: Option<i64>,
    pub changes: Vec<UpstreamChange>,
}

/// The two mutually exclusive outcomes of a validated check response.
#[derive(Clone, Debug, PartialEq, Eq)]
pub enum CheckResponse {
    /// Composition failed: the non-empty list of error messages.
    CompositionErrors(Vec<String>),
    /// Composition succeeded: the change report.
    CheckResult(CheckResult),
}

/// A successful check: the optional comparison URL, how many historical
/// operations the check ran against, and the rendered changes.
#[derive(Clone, Debug, PartialEq, Eq)]
pub struct CheckResult {
    pub target_url: Option<String>,
    pub number_of_checked_operations: i64,
    pub changes: Vec<Change>,
}

/// The mathematical image of a `CheckResult`.
#[verifier::ext_equal]
pub struct CheckResultModel {
    pub target_url: Option<Seq<char>>,
    pub number_of_checked_operations: int,
    pub changes: Seq<ChangeModel>,
}

impl View for CheckResult {
    type V = CheckResultModel;

    open spec fn view(&self) -> CheckResultModel {
        CheckResultModel {
            target_url: match self.target_url {
                Some(u) => Some(u@),
                None => None,
            },
            number_of_checked_operations: self.number_of_checked_operations as int,
            changes: self.changes@.map_values(|c: Change| c@),
        }
    }
}

/// The mathematical image of a `CheckResponse`.
#[verifier::ext_equal]
pub enum CheckModel {
    CompositionErrors(Seq<Seq<char>>),
    CheckResult(CheckResultModel),
}

impl View for CheckResponse {
    type V = CheckModel;

    open spec fn view(&self) -> CheckModel {
        match self {
            CheckResponse::CompositionErrors(messages) => CheckModel::CompositionErrors(
                messages@.map_values(|m: String| m@),
            ),
            CheckResponse::CheckResult(result) => CheckModel::CheckResult(result@),
        }
    }
}

/// What `url::Url::parse` makes of a string: absent when the string is
/// not a syntactically valid URL, else the parsed URL's serialization.
pub uninterp spec fn parsed_url(s: Seq<char>) -> Option<Seq<char>>;

/// Relies on url::Url::parse: whether a string parses as a URL, and
/// what the parsed URL serializes back to through Url::as_str, depend
/// on the string alone.
#[verifier::external_body]
fn parse_url(s: &str) -> (r: Option<String>)
    ensures
        r is Some <==> parsed_url(s@) is Some,
        r matches Some(u) ==> parsed_url(s@) == Some(u@),
{
    match url::Url::parse(s) {
        Ok(u) => Some(u.as_str().to_string()),
        Err(_) => None,
    }
}

/// The comparison URL the check result keeps: absent when the response
/// carried none or carried one that does not parse.
pub open spec fn target_url_of(url: Option<String>) -> Option<Seq<char>> {
    match url {
        Some(u) => parsed_url(u@),
        None => None,
    }
}

/// The view of an optional owned string.
pub open spec fn opt_string_view(s: Option<String>) -> Option<Seq<char>> {
    match s {
        Some(x) => Some(x@),
        None => None,
    }
}

/// Parses the optional comparison URL. A malformed URL is decorative:
/// it degrades silently to absent and never fails the command.
pub fn get_url(url: Option<String>) -> (r: Option<String>)
    ensures
        opt_string_view(r) == target_url_of(url),
{
    match url {
        Some(u) => parse_url(u.as_str()),
        None => None,
    }
}

/// The classification of a check response envelope, stated as one
/// mathematical function: no service record fails, the federation
/// guard rejects what is not a usable federated graph, a non-empty
/// extracted composition-error list wins unconditionally, and only an
/// empty one requires — and reads — the check-schema result.
pub open spec fn classify_check(
    data: CheckResponseData,
    graph: Seq<char>,
    invalid_variant: Seq<char>,
) -> Result<CheckModel, ErrorModel> {
    match data.service {
        None => Err(ErrorModel::NoService { graph }),
        Some(service) => match guard_error(service.service, graph, invalid_variant) {
            Some(e) => Err(e),
            None => {
                let messages = extracted(
                    service.check_partial_schema.composition_validation_result.errors@,
                );
                if messages.len() != 0 {
                    Ok(CheckModel::CompositionErrors(messages))
                } else {
                    match service.check_partial_schema.check_schema_result {
                        None => Err(
                            ErrorModel::MalformedResponse {
                                null_field: "service.check_partial_schema.check_schema_result"@,
                            },
                        ),
                        Some(result) => Ok(
                            CheckModel::CheckResult(
                                CheckResultModel {
                                    target_url: target_url_of(result.target_url),
                                    number_of_checked_operations: (
                                    match result.diff_to_previous.number_of_checked_operations {
                                        Some(n) => n as int,
                                        None => 0,
                                    }),
                                    changes: mapped_changes(result.diff_to_previous.changes@),
                                },
                            ),
                        ),
                    }
                }
            },
        },
    }
}

/// The image of a classification result under the two views.
pub open spec fn check_result_model(r: Result<CheckResponse, RoverClientError>) -> Result<
    CheckModel,
    ErrorModel,
> {
    match r {
        Ok(response) => Ok(response@),
        Err(e) => Err(e@),
    }
}

/// The change list is only read on the branch that reaches it: a
/// federated service record with no composition errors and a present
/// check-schema result. There every severity must be one the fixed
/// mapping covers; an extended severity enumeration is a programming
/// error, not a recoverable response.
pub open spec fn reachable_severities_known(data: CheckResponseData) -> bool {
    match data.service {
        None => true,
        Some(service) => (service.service.implementing_services is Federated && extracted(
            service.check_partial_schema.composition_validation_result.errors@,
        ).len() == 0) ==> match service.check_partial_schema.check_schema_result {
            None => true,
            Some(result) => all_severities_known(result.diff_to_previous.changes@),
        },
    }
}

/// Classifies a check response envelope: exactly the classification
/// function, error for error and field for field.
pub fn get_check_response_from_data(
    data: CheckResponseData,
    graph: String,
    invalid_variant: String,
) -> (r: Result<CheckResponse, RoverClientError>)
    requires
        reachable_severities_known(data),
    ensures
        check_result_model(r) == classify_check(data, graph@, invalid_variant@),
{
    let service = match data.service {
        None => {
            return Err(RoverClientError::NoService { graph });
        },
        Some(service) => service,
    };
    match validate(&service.service, &graph, &invalid_variant) {
        Err(e) => {
            return Err(e);
        },
        Ok(_) => {},
    }
    let messages = extract(&service.check_partial_schema.composition_validation_result.errors);
    proof {
        assert(messages@.len() == extracted(
            service.check_partial_schema.composition_validation_result.errors@,
        ).len());
    }
    if messages.len() != 0 {
        Ok(CheckResponse::CompositionErrors(messages))
    } else {
        let check_schema_result = match service.check_partial_schema.check_schema_result {
            None => {
                let null_field = "service.check_partial_schema.check_schema_result".to_string();
                return Err(RoverClientError::MalformedResponse { null_field });
            },
            Some(result) => result,
        };
        let target_url = get_url(check_schema_result.target_url);
        let number_of_checked_operations: i64 = (
        match check_schema_result.diff_to_previous.number_of_checked_operations {
            Some(n) => n,
            None => 0,
        });
        let (changes, _num_failures) = get_changes(&check_schema_result.diff_to_previous.changes);
        let result = CheckResult { target_url, number_of_checked_operations, changes };
        proof {
            assert(check_result_model(Ok(CheckResponse::CheckResult(result)))
                =~= classify_check(data, graph@, invalid_variant@));
        }
        Ok(CheckResponse::CheckResult(result))
    }
}

/// Composition errors take precedence unconditionally: two check
/// responses that agree on everything but the check-schema result, and
/// whose extracted composition-error list is non-empty, classify
/// identically — and, past the guard, to exactly that list. The
/// check-schema result is never consulted on this branch.
pub proof fn lemma_composition_errors_take_precedence(
    d1: CheckResponseData,
    d2: CheckResponseData,
    graph: Seq<char>,
    invalid_variant: Seq<char>,
)
    requires
        d1.service is Some,
        d2.service is Some,
        d1.service->0.service == d2.service->0.service,
        d1.service->0.check_partial_schema.composition_validation_result
            == d2.service->0.check_partial_schema.composition_validation_result,
        extracted(
            d1.service->0.check_partial_schema.composition_validation_result.errors@,
        ).len() != 0,
    ensures
        classify_check(d1, graph, invalid_variant) == classify_check(d2, graph, invalid_variant),
        d1.service->0.service.implementing_services is Federated ==> classify_check(
            d1,
            graph,
            invalid_variant,
        ) == Ok::<CheckModel, ErrorModel>(
            CheckModel::CompositionErrors(
                extracted(
                    d1.service->0.check_partial_schema.composition_validation_result.errors@,
                ),
            ),
        ),
{
}

} // verus!
