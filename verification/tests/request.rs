use es_base_tools::error::ToolError;
use es_base_tools::params::{
    EsqlQueryParams, GetMappingsParams, GetShardsParams, HealthCheckParams, ListIndicesParams,
    LogAnalysisParams, MetricsAggregationParams, ObservabilityQueryParams, SearchParams,
    ToolParameters, TraceAnalysisParams,
};
use es_base_tools::request::{assemble, ClusterRequest};
use es_base_tools::tabular::EsqlQueryRequest;
use serde_json::Value;

fn object(text: &str) -> serde_json::Map<String, Value> {
    serde_json::from_str(text).unwrap()
}

fn names(list: &[&str]) -> Vec<String> {
    list.iter().map(|s| s.to_string()).collect()
}

fn logs(time_range: &str) -> ToolParameters {
    ToolParameters::LogAnalysis(LogAnalysisParams {
        index_pattern: "logs-*".to_string(),
        time_range: time_range.to_string(),
        log_level: Some("warn".to_string()),
        service_name: None,
        search_query: Some("disk".to_string()),
        size: Some(20),
    })
}

#[test]
fn index_listing_request() {
    let p = ToolParameters::ListIndices(ListIndicesParams { index_pattern: "logs-*".to_string() });
    assert_eq!(
        assemble(&p),
        Ok(vec![ClusterRequest::CatIndices {
            target: "logs-*".to_string(),
            columns: names(&["index", "status", "docs.count"]),
        }])
    );
}

#[test]
fn mapping_request() {
    let p = ToolParameters::GetMappings(GetMappingsParams { index: "logs".to_string() });
    assert_eq!(assemble(&p), Ok(vec![ClusterRequest::GetMapping { index: "logs".to_string() }]));
}

#[test]
fn search_request_merges_the_fields() {
    let p = ToolParameters::Search(SearchParams {
        index: "logs".to_string(),
        fields: Some(names(&["message"])),
        query_body: object(r#"{"query":{"match_all":{}},"_source":["@timestamp"]}"#),
    });
    assert_eq!(
        assemble(&p),
        Ok(vec![ClusterRequest::Search {
            index: "logs".to_string(),
            body: object(r#"{"query":{"match_all":{}},"_source":["@timestamp","message"]}"#),
        }])
    );
}

#[test]
fn columnar_query_request() {
    let p = ToolParameters::EsqlLikeQuery(EsqlQueryParams { query: "FROM logs | LIMIT 1".to_string() });
    assert_eq!(
        assemble(&p),
        Ok(vec![ClusterRequest::Esql {
            request: EsqlQueryRequest { query: "FROM logs | LIMIT 1".to_string() },
        }])
    );
}

#[test]
fn shard_listing_requests() {
    let columns = names(&["index", "shard", "prirep", "state", "docs", "store", "node"]);
    let all = ToolParameters::GetShards(GetShardsParams { index: None });
    assert_eq!(
        assemble(&all),
        Ok(vec![ClusterRequest::CatShards { scope: None, columns: columns.clone() }])
    );
    let one = ToolParameters::GetShards(GetShardsParams { index: Some("logs".to_string()) });
    assert_eq!(
        assemble(&one),
        Ok(vec![ClusterRequest::CatShards { scope: Some("logs".to_string()), columns }])
    );
}

#[test]
fn observability_request() {
    let p = ToolParameters::ObservabilityQuery(ObservabilityQueryParams {
        index_pattern: "metrics-*".to_string(),
        time_range: "now-30m".to_string(),
        filters: None,
        size: None,
    });
    assert_eq!(
        assemble(&p),
        Ok(vec![ClusterRequest::Search {
            index: "metrics-*".to_string(),
            body: object(
                r#"{"size":100,
                    "query":{"bool":{"must":[{"range":{"@timestamp":{"gte":"now-30m","lte":"now"}}}]}},
                    "sort":[{"@timestamp":{"order":"desc"}}]}"#
            ),
        }])
    );
}

#[test]
fn metrics_request() {
    let p = ToolParameters::MetricsAggregation(MetricsAggregationParams {
        index_pattern: "metrics-*".to_string(),
        time_range: "now-30m".to_string(),
        metric_field: "cpu".to_string(),
        aggregation_type: "nonsense".to_string(),
        group_by: None,
        filters: None,
    });
    assert_eq!(
        assemble(&p),
        Ok(vec![ClusterRequest::Search {
            index: "metrics-*".to_string(),
            body: object(
                r#"{"size":0,
                    "query":{"bool":{"must":[{"range":{"@timestamp":{"gte":"now-30m","lte":"now"}}}]}},
                    "aggs":{"metric_agg":{"avg":{"field":"cpu"}}}}"#
            ),
        }])
    );
}

#[test]
fn trace_request() {
    let p = ToolParameters::TraceAnalysis(TraceAnalysisParams {
        index_pattern: "traces-*".to_string(),
        time_range: "now-30m".to_string(),
        trace_id: Some("t1".to_string()),
        service_name: None,
        operation_name: None,
        size: Some(1),
    });
    assert_eq!(
        assemble(&p),
        Ok(vec![ClusterRequest::Search {
            index: "traces-*".to_string(),
            body: object(
                r#"{"size":1,
                    "query":{"bool":{"must":[
                        {"range":{"@timestamp":{"gte":"now-30m","lte":"now"}}},
                        {"term":{"trace.id":"t1"}}]}},
                    "sort":[{"@timestamp":{"order":"desc"}}]}"#
            ),
        }])
    );
}

#[test]
fn log_request() {
    assert_eq!(
        assemble(&logs("now-30m")),
        Ok(vec![ClusterRequest::Search {
            index: "logs-*".to_string(),
            body: object(
                r#"{"size":20,
                    "query":{"bool":{"must":[
                        {"range":{"@timestamp":{"gte":"now-30m","lte":"now"}}},
                        {"term":{"log.level":"warn"}},
                        {"multi_match":{"query":"disk","fields":["message","log.message","message.raw"]}}]}},
                    "sort":[{"@timestamp":{"order":"desc"}}]}"#
            ),
        }])
    );
}

#[test]
fn health_check_asks_once_or_twice() {
    let cluster = ToolParameters::HealthCheck(HealthCheckParams { index: None });
    assert_eq!(assemble(&cluster), Ok(vec![ClusterRequest::ClusterHealth]));
    let index = ToolParameters::HealthCheck(HealthCheckParams { index: Some("logs".to_string()) });
    assert_eq!(
        assemble(&index),
        Ok(vec![
            ClusterRequest::ClusterHealth,
            ClusterRequest::CatIndices {
                target: "logs".to_string(),
                columns: names(&["index", "status", "health", "docs.count", "store.size"]),
            },
        ])
    );
}

#[test]
fn malformed_time_range_rejects_the_call() {
    assert_eq!(
        assemble(&logs("yesterday,today,tomorrow")),
        Err(ToolError::InvalidParameter(
            "Invalid time range format. Use 'start,end' or 'now-X' format".to_string()
        ))
    );
}

#[test]
fn assembling_twice_gives_identical_bytes() {
    let calls = vec![
        logs("now-30m"),
        logs("2024-01-01 , 2024-02-01"),
        logs("a,b,c"),
        ToolParameters::Search(SearchParams {
            index: "logs".to_string(),
            fields: Some(names(&["b", "a"])),
            query_body: object(r#"{"z":1,"a":{"k":[1,2.5,"x"]},"_source":["c"]}"#),
        }),
        ToolParameters::MetricsAggregation(MetricsAggregationParams {
            index_pattern: "metrics-*".to_string(),
            time_range: "now-1d".to_string(),
            metric_field: "cpu".to_string(),
            aggregation_type: "Stats".to_string(),
            group_by: Some("host".to_string()),
            filters: Some(object(r#"{"query":{"term":{"host":"a"}}}"#)),
        }),
        ToolParameters::HealthCheck(HealthCheckParams { index: Some("logs".to_string()) }),
    ];
    for call in &calls {
        let first = assemble(call);
        let second = assemble(call);
        assert_eq!(first, second);
        if let (Ok(first), Ok(second)) = (first, second) {
            for (a, b) in first.iter().zip(second.iter()) {
                if let (
                    ClusterRequest::Search { body: a, .. },
                    ClusterRequest::Search { body: b, .. },
                ) = (a, b)
                {
                    assert_eq!(serde_json::to_vec(a).unwrap(), serde_json::to_vec(b).unwrap());
                }
            }
        }
    }
}
