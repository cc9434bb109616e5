//! The failure taxonomy of response classification.
//!
//! Every error carries enough context (graph name, requested variant,
//! the variants that do have a schema) to be printed directly to the
//! user without a further lookup.

use vstd::prelude::*;

verus! {

/// An error produced while classifying a registry response.
#[derive(Clone, Debug, PartialEq, Eq)]
pub enum RoverClientError {
    /// The registry has no record for the requested graph.
    NoService { graph: String },
    /// The graph exists but is not a federated graph: this command does
    /// not apply to it.
    ExpectedFederatedGraph { graph: String },
    /// The requested variant has no published schema; `valid_variants`
    /// lists the variants that do, in the order the registry gave them.
    NoSchemaForVariant {
        graph: String,
        invalid_variant: String,
        valid_variants: Vec<String>,
        frontend_url_root: String,
    },
    /// A structurally required field was absent from the response: the
    /// upstream contract was violated. Never a user error.
    MalformedResponse { null_field: String },
}

/// The mathematical image of a `RoverClientError`: the same cases over
/// sequences of characters.
#[verifier::ext_equal]
pub enum ErrorModel {
    NoService { graph: Seq<char> },
    ExpectedFederatedGraph { graph: Seq<char> },
    NoSchemaForVariant {
        graph: Seq<char>,
        invalid_variant: Seq<char>,
        valid_variants: Seq<Seq<char>>,
        frontend_url_root: Seq<char>,
    },
    MalformedResponse { null_field: Seq<char> },
}

impl View for RoverClientError {
    type V = ErrorModel;

    open spec fn view(&self) -> ErrorModel {
        match self {
            RoverClientError::NoService { graph } => ErrorModel::NoService { graph: graph@ },
            RoverClientError::ExpectedFederatedGraph { graph } => (
                ErrorModel::ExpectedFederatedGraph { graph: graph@ }
            ),
            RoverClientError::NoSchemaForVariant {
                graph,
                invalid_variant,
                valid_variants,
                frontend_url_root,
            } => (ErrorModel::NoSchemaForVariant {
                graph: graph@,
                invalid_variant: invalid_variant@,
                valid_variants: valid_variants@.map_values(|v: String| v@),
                frontend_url_root: frontend_url_root@,
            }),
            RoverClientError::MalformedResponse { null_field } => (
                ErrorModel::MalformedResponse { null_field: null_field@ }
            ),
        }
    }
}

} // verus!
