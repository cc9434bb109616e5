//! The federation guard and the graph reference.
//!
//! Both the check and the publish classifiers first pass the response's
//! service record through the guard: the graph must exist, be federated,
//! and have a schema registered under the requested variant.

use vstd::prelude::*;
use vstd::string::StrSliceExecFns;
use crate::error::{ErrorModel, RoverClientError};

verus! {

broadcast use vstd::string::group_string_axioms;

/// The well-known sentinel a graph ref's variant defaults to when the
/// caller leaves it unspecified.
pub open spec fn default_variant() -> Seq<char> {
    "current"@
}

/// Identifies a registry graph: a non-empty name and a non-empty
/// variant. Constructed once per invocation from user input.
#[derive(Clone, Debug, PartialEq, Eq)]
pub struct GraphRef {
    pub name: String,
    pub variant: String,
}

impl GraphRef {
    /// Both parts are non-empty.
    pub open spec fn well_formed(self) -> bool {
        self.name@.len() > 0 && self.variant@.len() > 0
    }

    /// Builds a graph ref from user input, defaulting an unspecified
    /// variant to the well-known sentinel. An empty name or an empty
    /// given variant is rejected.
    pub fn new(name: String, variant: Option<String>) -> (r: Option<GraphRef>)
        ensures
            r is Some <==> (name@.len() > 0 && (variant matches Some(v) ==> v@.len() > 0)),
            r matches Some(g) ==> {
                &&& g.well_formed()
                &&& g.name == name
                &&& match variant {
                    Some(v) => g.variant == v,
                    None => g.variant@ == default_variant(),
                }
            },
    {
        if name.as_str().unicode_len() == 0 {
            return None;
        }
        match variant {
            Some(v) => {
                if v.as_str().unicode_len() == 0 {
                    None
                } else {
                    Some(GraphRef { name, variant: v })
                }
            },
            None => {
                let variant = "current".to_string();
                proof {
                    reveal_strlit("current");
                }
                Some(GraphRef { name, variant })
            },
        }
    }
}

/// One variant the registry knows for a graph.
#[derive(Clone, Debug, PartialEq, Eq)]
pub struct GraphVariant {
    pub name: String,
}

/// The service record's "implementing services" discriminator: the
/// three shapes the registry can answer with.
#[derive(Clone, Debug, PartialEq, Eq)]
pub enum ImplementingServices {
    /// The graph is federated: the guard lets the response through.
    Federated,
    /// The graph exists but is not federated.
    NonFederated,
    /// The schema lookup for the requested variant came back null.
    Absent,
}

/// The part of the service record the guard inspects: the discriminator
/// and the variants known for the graph.
#[derive(Clone, Debug, PartialEq, Eq)]
pub struct ServiceInfo {
    pub implementing_services: ImplementingServices,
    pub variants: Vec<GraphVariant>,
}

/// Proof that a named graph exists, is federated, and has a schema
/// registered under the requested variant. Not retained beyond one
/// response classification.
pub struct ValidatedService {}

/// The registry's web root named in a variant-not-found error. It is a
/// fixed constant, not derived from the response.
pub open spec fn frontend_url_root() -> Seq<char> {
    "https://studio.apollographql.com"@
}

/// The names of the given variants, in their given order.
pub open spec fn variant_names(variants: Seq<GraphVariant>) -> Seq<Seq<char>> {
    variants.map_values(|v: GraphVariant| v.name@)
}

/// What the guard rejects a service record with, if anything: a
/// non-federated graph is the wrong target for this command, and an
/// absent schema lookup names every variant that does have a schema.
pub open spec fn guard_error(
    info: ServiceInfo,
    graph: Seq<char>,
    invalid_variant: Seq<char>,
) -> Option<ErrorModel> {
    match info.implementing_services {
        ImplementingServices::Federated => None,
        ImplementingServices::NonFederated => Some(ErrorModel::ExpectedFederatedGraph { graph }),
        ImplementingServices::Absent => Some(
            ErrorModel::NoSchemaForVariant {
                graph,
                invalid_variant,
                valid_variants: variant_names(info.variants@),
                frontend_url_root: frontend_url_root(),
            },
        ),
    }
}

/// The federation guard: admits exactly the federated service records,
/// and otherwise reports why the graph cannot be used, with the valid
/// variant names enumerated exactly as the registry gave them. A pure
/// classification with no side effects.
#[verifier::loop_isolation(false)]
pub fn validate(info: &ServiceInfo, graph: &String, invalid_variant: &String) -> (r: Result<
    ValidatedService,
    RoverClientError,
>)
    ensures
        r is Ok <==> info.implementing_services is Federated,
        r matches Err(e) ==> guard_error(*info, graph@, invalid_variant@) == Some(e@),
{
    match &info.implementing_services {
        ImplementingServices::Federated => Ok(ValidatedService {}),
        ImplementingServices::NonFederated => Err(
            RoverClientError::ExpectedFederatedGraph { graph: graph.clone() },
        ),
        ImplementingServices::Absent => {
            let mut valid_variants: Vec<String> = Vec::new();
            let mut i: usize = 0;
            while i < info.variants.len()
                invariant
                    i <= info.variants.len(),
                    valid_variants@.map_values(|v: String| v@) == variant_names(
                        info.variants@.take(i as int),
                    ),
                decreases info.variants.len() - i,
            {
                valid_variants.push(info.variants[i].name.clone());
                proof {
                    assert(info.variants@.take(i + 1) =~= info.variants@.take(i as int).push(
                        info.variants@[i as int],
                    ));
                    assert(variant_names(info.variants@.take(i + 1)) =~= variant_names(
                        info.variants@.take(i as int),
                    ).push(info.variants@[i as int].name@));
                    assert(valid_variants@.map_values(|v: String| v@) =~= variant_names(
                        info.variants@.take(i as int),
                    ).push(info.variants@[i as int].name@));
                }
                i = i + 1;
            }
            proof {
                assert(info.variants@.take(info.variants@.len() as int) =~= info.variants@);
            }
            let e = RoverClientError::NoSchemaForVariant {
                graph: graph.clone(),
                invalid_variant: invalid_variant.clone(),
                valid_variants,
                frontend_url_root: "https://studio.apollographql.com".to_string(),
            };
            proof {
                assert(e@ =~= guard_error(*info, graph@, invalid_variant@)->0);
            }
            Err(e)
        },
    }
}

} // verus!
