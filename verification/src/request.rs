//! Cluster requests.
//!
//! Every tool call is turned into the requests that answer it: one
//! request for every tool but the health check, which asks for the health
//! of the cluster and then, if an index was named, for the health of that
//! index. The requests are meant to be sent in order, and the call ends
//! with the first one that fails.

use crate::error::{ErrorModel, ToolError};
use crate::json::{object_model, views, JsonModel};
use crate::params::ToolParameters;
use crate::query::{
    log_body, log_query, metrics_body, metrics_query, observability_body, observability_query,
    search_query, trace_body, trace_query, with_source_fields,
};
use crate::tabular::EsqlQueryRequest;
use crate::time_range::invalid_time_range_text;
use serde_json::Value;
use vstd::prelude::*;

verus! {

/// A request to the cluster. Listings are asked for in JSON, with the
/// columns named here.
#[derive(Debug, PartialEq)]
pub enum ClusterRequest {
    /// The listing of the indices that match `target`.
    CatIndices { target: String, columns: Vec<String> },
    /// The mappings of the indices that match `index`.
    GetMapping { index: String },
    /// A search of `index` with the query document `body`.
    Search { index: String, body: serde_json::Map<String, Value> },
    /// A query in the columnar query language.
    Esql { request: EsqlQueryRequest },
    /// The listing of the shards of the index `scope`, or of all indices.
    CatShards { scope: Option<String>, columns: Vec<String> },
    /// The health of the cluster.
    ClusterHealth,
}

/// The mathematical content of a [`ClusterRequest`].
pub enum RequestModel {
    CatIndices { target: Seq<char>, columns: Seq<Seq<char>> },
    GetMapping { index: Seq<char> },
    Search { index: Seq<char>, body: Map<Seq<char>, JsonModel> },
    Esql { query: Seq<char> },
    CatShards { scope: Option<Seq<char>>, columns: Seq<Seq<char>> },
    ClusterHealth,
}

impl View for ClusterRequest {
    type V = RequestModel;

    open spec fn view(&self) -> RequestModel {
        match self {
            ClusterRequest::CatIndices { target, columns } => RequestModel::CatIndices {
                target: target@,
                columns: views(columns@),
            },
            ClusterRequest::GetMapping { index } => RequestModel::GetMapping { index: index@ },
            ClusterRequest::Search { index, body } => RequestModel::Search {
                index: index@,
                body: object_model(*body),
            },
            ClusterRequest::Esql { request } => RequestModel::Esql { query: request.query@ },
            ClusterRequest::CatShards { scope, columns } => RequestModel::CatShards {
                scope: match scope {
                    Some(name) => Some(name@),
                    None => None,
                },
                columns: views(columns@),
            },
            ClusterRequest::ClusterHealth => RequestModel::ClusterHealth,
        }
    }
}

/// The contents of a list of requests, in order.
pub open spec fn request_models(requests: Seq<ClusterRequest>) -> Seq<RequestModel> {
    requests.map_values(|request: ClusterRequest| request@)
}

/// The columns of the index listing.
pub open spec fn index_columns() -> Seq<Seq<char>> {
    seq!["index"@, "status"@, "docs.count"@]
}

/// The columns of the shard listing.
pub open spec fn shard_columns() -> Seq<Seq<char>> {
    seq!["index"@, "shard"@, "prirep"@, "state"@, "docs"@, "store"@, "node"@]
}

/// The columns of the health of an index.
pub open spec fn index_health_columns() -> Seq<Seq<char>> {
    seq!["index"@, "status"@, "health"@, "docs.count"@, "store.size"@]
}

/// The search of `index` with `body`, if there is a body.
pub open spec fn search_of(index: Seq<char>, body: Option<Map<Seq<char>, JsonModel>>) -> Option<
    Seq<RequestModel>,
> {
    match body {
        Some(body) => Some(seq![RequestModel::Search { index, body }]),
        None => None,
    }
}

/// The requests that answer a tool call; `None` if the call is rejected.
pub open spec fn requests_for(params: ToolParameters) -> Option<Seq<RequestModel>> {
    match params {
        ToolParameters::ListIndices(p) => Some(
            seq![RequestModel::CatIndices { target: p.index_pattern@, columns: index_columns() }],
        ),
        ToolParameters::GetMappings(p) => Some(seq![RequestModel::GetMapping { index: p.index@ }]),
        ToolParameters::Search(p) => search_of(
            p.index@,
            Some(with_source_fields(object_model(p.query_body), p.fields)),
        ),
        ToolParameters::EsqlLikeQuery(p) => Some(seq![RequestModel::Esql { query: p.query@ }]),
        ToolParameters::GetShards(p) => Some(
            seq![
                RequestModel::CatShards {
                    scope: match p.index {
                        Some(name) => Some(name@),
                        None => None,
                    },
                    columns: shard_columns(),
                },
            ],
        ),
        ToolParameters::ObservabilityQuery(p) => search_of(p.index_pattern@, observability_body(p)),
        ToolParameters::MetricsAggregation(p) => search_of(p.index_pattern@, metrics_body(p)),
        ToolParameters::TraceAnalysis(p) => search_of(p.index_pattern@, trace_body(p)),
        ToolParameters::LogAnalysis(p) => search_of(p.index_pattern@, log_body(p)),
        ToolParameters::HealthCheck(p) => Some(
            match p.index {
                Some(name) => seq![
                    RequestModel::ClusterHealth,
                    RequestModel::CatIndices { target: name@, columns: index_health_columns() },
                ],
                None => seq![RequestModel::ClusterHealth],
            },
        ),
    }
}

/// Whether `outcome` is what assembling `params` gives: the requests for
/// the call, or the error for a malformed time range if the call is
/// rejected.
pub open spec fn assembles(
    params: ToolParameters,
    outcome: Result<Seq<RequestModel>, ErrorModel>,
) -> bool {
    match outcome {
        Ok(requests) => requests_for(params) == Some(requests),
        Err(e) => requests_for(params) is None && e == ErrorModel::InvalidParameter(
            invalid_time_range_text(),
        ),
    }
}

/// The contents of the outcome of an assembly.
pub open spec fn outcome_model(outcome: Result<Vec<ClusterRequest>, ToolError>) -> Result<
    Seq<RequestModel>,
    ErrorModel,
> {
    match outcome {
        Ok(requests) => Ok(request_models(requests@)),
        Err(e) => Err(e@),
    }
}

/// Makes a list with one request.
fn only(request: ClusterRequest) -> (requests: Vec<ClusterRequest>)
    ensures
        request_models(requests@) == seq![request@],
{
    let mut requests: Vec<ClusterRequest> = Vec::new();
    requests.push(request);
    requests
}

/// Makes the search of `index` with an assembled body, or hands on the
/// error of the assembly.
fn search_request(index: &String, body: Result<serde_json::Map<String, Value>, ToolError>) -> (r:
    Result<Vec<ClusterRequest>, ToolError>)
    ensures
        match (body, r) {
            (Ok(b), Ok(requests)) => request_models(requests@) == seq![
                RequestModel::Search { index: index@, body: object_model(b) },
            ],
            (Err(e), Err(f)) => e@ == f@,
            _ => false,
        },
{
    match body {
        Ok(b) => Ok(only(ClusterRequest::Search { index: index.clone(), body: b })),
        Err(e) => Err(e),
    }
}

/// Makes the list of columns of the index listing.
fn make_index_columns() -> (columns: Vec<String>)
    ensures
        views(columns@) == index_columns(),
{
    let mut columns: Vec<String> = Vec::new();
    columns.push("index".to_owned());
    columns.push("status".to_owned());
    columns.push("docs.count".to_owned());
    columns
}

/// Makes the list of columns of the shard listing.
fn make_shard_columns() -> (columns: Vec<String>)
    ensures
        views(columns@) == shard_columns(),
{
    let mut columns: Vec<String> = Vec::new();
    columns.push("index".to_owned());
    columns.push("shard".to_owned());
    columns.push("prirep".to_owned());
    columns.push("state".to_owned());
    columns.push("docs".to_owned());
    columns.push("store".to_owned());
    columns.push("node".to_owned());
    columns
}

/// Makes the list of columns of the health of an index.
fn make_index_health_columns() -> (columns: Vec<String>)
    ensures
        views(columns@) == index_health_columns(),
{
    let mut columns: Vec<String> = Vec::new();
    columns.push("index".to_owned());
    columns.push("status".to_owned());
    columns.push("health".to_owned());
    columns.push("docs.count".to_owned());
    columns.push("store.size".to_owned());
    columns
}

/// Assembles the requests that answer a tool call.
///
/// Fails with `InvalidParameter` exactly when the call carries a time
/// range that is rejected. Nothing but `params` enters the result, so
/// assembling the same parameters again gives the same requests.
pub fn assemble(params: &ToolParameters) -> (r: Result<Vec<ClusterRequest>, ToolError>)
    ensures
        assembles(*params, outcome_model(r)),
{
    match params {
        ToolParameters::ListIndices(p) => Ok(
            only(
                ClusterRequest::CatIndices {
                    target: p.index_pattern.clone(),
                    columns: make_index_columns(),
                },
            ),
        ),
        ToolParameters::GetMappings(p) => Ok(
            only(ClusterRequest::GetMapping { index: p.index.clone() }),
        ),
        ToolParameters::Search(p) => search_request(&p.index, Ok(search_query(p))),
        ToolParameters::EsqlLikeQuery(p) => Ok(
            only(ClusterRequest::Esql { request: EsqlQueryRequest { query: p.query.clone() } }),
        ),
        ToolParameters::GetShards(p) => Ok(
            only(
                ClusterRequest::CatShards {
                    scope: p.index.clone(),
                    columns: make_shard_columns(),
                },
            ),
        ),
        ToolParameters::ObservabilityQuery(p) => search_request(
            &p.index_pattern,
            observability_query(p),
        ),
        ToolParameters::MetricsAggregation(p) => search_request(&p.index_pattern, metrics_query(p)),
        ToolParameters::TraceAnalysis(p) => search_request(&p.index_pattern, trace_query(p)),
        ToolParameters::LogAnalysis(p) => search_request(&p.index_pattern, log_query(p)),
        ToolParameters::HealthCheck(p) => {
            let mut requests = only(ClusterRequest::ClusterHealth);
            match &p.index {
                Some(name) => {
                    let second = ClusterRequest::CatIndices {
                        target: name.clone(),
                        columns: make_index_health_columns(),
                    };
                    let ghost first = requests@;
                    requests.push(second);
                    assert(request_models(requests@) =~= request_models(first).push(second@));
                    assert(request_models(requests@) =~= seq![
                        RequestModel::ClusterHealth,
                        RequestModel::CatIndices {
                            target: name@,
                            columns: index_health_columns(),
                        },
                    ]);
                },
                None => {},
            }
            Ok(requests)
        },
    }
}

/// Assembly is a function of the parameters: two assemblies of the same
/// parameters have the same contents.
pub proof fn lemma_assembly_is_repeatable(
    params: ToolParameters,
    first: Result<Seq<RequestModel>, ErrorModel>,
    second: Result<Seq<RequestModel>, ErrorModel>,
)
    requires
        assembles(params, first),
        assembles(params, second),
    ensures
        first == second,
{
}

/// A call is answered by one request, or by two if it is a health check
/// that names an index.
pub proof fn lemma_request_count(params: ToolParameters)
    requires
        requests_for(params) is Some,
    ensures
        requests_for(params)->0.len() == if params matches ToolParameters::HealthCheck(p)
            && p.index is Some {
            2nat
        } else {
            1nat
        },
{
}

} // verus!
