//! Classification of graph-registry responses for schema checks and
//! subgraph publishes: a federation guard that admits only federated
//! graphs with a schema under the requested variant, an extractor that
//! cleans sparse composition-error lists, and builders that turn a
//! validated response into a check outcome or a publish outcome.

pub mod check;
pub mod composition;
pub mod error;
pub mod output;
pub mod publish;
pub mod push;
pub mod service;
