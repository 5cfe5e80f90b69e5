//! The parameters of the ten tools. A set of parameters is received once
//! and never changed afterwards.

use serde_json::Value;
use vstd::prelude::*;

verus! {

/// Parameters of the index listing.
#[derive(Debug)]
pub struct ListIndicesParams {
    /// Pattern of the indices to list.
    pub index_pattern: String,
}

/// Parameters of the mapping lookup.
#[derive(Debug)]
pub struct GetMappingsParams {
    /// Name of the index whose mappings are wanted; it may be a wildcard.
    pub index: String,
}

/// Parameters of the free-form search.
#[derive(Debug)]
pub struct SearchParams {
    /// Name of the index to search.
    pub index: String,
    /// Names of the fields to return.
    pub fields: Option<Vec<String>>,
    /// The complete query document, as the caller wrote it.
    pub query_body: serde_json::Map<String, Value>,
}

/// Parameters of a query in the columnar query language.
#[derive(Debug)]
pub struct EsqlQueryParams {
    /// The complete query.
    pub query: String,
}

/// Parameters of the shard listing.
#[derive(Debug)]
pub struct GetShardsParams {
    /// Index whose shards are wanted; all indices if absent.
    pub index: Option<String>,
}

/// Parameters of the observability query.
#[derive(Debug)]
pub struct ObservabilityQueryParams {
    /// Pattern of the indices that hold the data.
    pub index_pattern: String,
    /// Time range, such as `now-1h` or `start,end`.
    pub time_range: String,
    /// A filter fragment; its `query` member, if it is an object, becomes
    /// one more clause of the query.
    pub filters: Option<serde_json::Map<String, Value>>,
    /// Largest number of records to return.
    pub size: Option<u32>,
}

/// Parameters of the metrics aggregation.
#[derive(Debug)]
pub struct MetricsAggregationParams {
    /// Pattern of the indices that hold the metrics.
    pub index_pattern: String,
    /// Time range of the aggregation.
    pub time_range: String,
    /// Field to aggregate.
    pub metric_field: String,
    /// Name of the aggregation.
    pub aggregation_type: String,
    /// Field to group by.
    pub group_by: Option<String>,
    /// A filter fragment, as in the observability query.
    pub filters: Option<serde_json::Map<String, Value>>,
}

/// Parameters of the trace analysis.
#[derive(Debug)]
pub struct TraceAnalysisParams {
    /// Pattern of the indices that hold the traces.
    pub index_pattern: String,
    /// Time range of the analysis.
    pub time_range: String,
    /// Identifier of the trace to look at.
    pub trace_id: Option<String>,
    /// Name of the service to look at.
    pub service_name: Option<String>,
    /// Name of the operation to look at.
    pub operation_name: Option<String>,
    /// Largest number of records to return.
    pub size: Option<u32>,
}

/// Parameters of the log analysis.
#[derive(Debug)]
pub struct LogAnalysisParams {
    /// Pattern of the indices that hold the logs.
    pub index_pattern: String,
    /// Time range of the analysis.
    pub time_range: String,
    /// Log level to look at.
    pub log_level: Option<String>,
    /// Name of the service to look at.
    pub service_name: Option<String>,
    /// Text to look for in the messages.
    pub search_query: Option<String>,
    /// Largest number of records to return.
    pub size: Option<u32>,
}

/// Parameters of the health check.
#[derive(Debug)]
pub struct HealthCheckParams {
    /// Index whose health is wanted besides that of the cluster.
    pub index: Option<String>,
}

/// The parameters of one tool call.
#[derive(Debug)]
pub enum ToolParameters {
    ListIndices(ListIndicesParams),
    GetMappings(GetMappingsParams),
    Search(SearchParams),
    EsqlLikeQuery(EsqlQueryParams),
    GetShards(GetShardsParams),
    ObservabilityQuery(ObservabilityQueryParams),
    MetricsAggregation(MetricsAggregationParams),
    TraceAnalysis(TraceAnalysisParams),
    LogAnalysis(LogAnalysisParams),
    HealthCheck(HealthCheckParams),
}

} // verus!
