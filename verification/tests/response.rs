use es_base_tools::blocks::OutputBlock;
use es_base_tools::params::{
    EsqlQueryParams, GetMappingsParams, GetShardsParams, HealthCheckParams, ListIndicesParams,
    LogAnalysisParams, MetricsAggregationParams, ObservabilityQueryParams, SearchParams,
    ToolParameters, TraceAnalysisParams,
};
use es_base_tools::response::{
    context_of, extract_sources, normalize, normalize_metrics, normalize_records,
    normalize_search, Hit, Hits, RecordKind, SearchContext, SearchResult, TotalHits,
};
use indexmap::IndexMap;
use serde_json::Value;

fn json(text: &str) -> Value {
    serde_json::from_str(text).unwrap()
}

fn text(line: &str) -> OutputBlock {
    OutputBlock::Text(line.to_string())
}

fn aggregations(entries: &[(&str, &str)]) -> IndexMap<String, Value> {
    let mut map = IndexMap::new();
    for (name, value) in entries {
        map.insert(name.to_string(), json(value));
    }
    map
}

fn result(total: Option<u64>, sources: &[&str], entries: &[(&str, &str)]) -> SearchResult {
    SearchResult {
        hits: Hits {
            total: total.map(|value| TotalHits { value }),
            hits: sources.iter().map(|s| Hit { source: json(s) }).collect(),
        },
        aggregations: aggregations(entries),
    }
}

#[test]
fn sources_are_extracted_in_order() {
    let hits = vec![Hit { source: json("1") }, Hit { source: json(r#"{"a":2}"#) }, Hit { source: json("null") }];
    assert_eq!(extract_sources(hits), vec![json("1"), json(r#"{"a":2}"#), json("null")]);
    assert_eq!(extract_sources(Vec::new()), Vec::<Value>::new());
}

#[test]
fn hits_without_aggregations() {
    let blocks = normalize_search(result(Some(42), &[r#"{"a":1}"#, r#"{"a":2}"#], &[]));
    assert_eq!(
        blocks,
        vec![
            text("Total results: 42, showing 2."),
            OutputBlock::Documents(vec![json(r#"{"a":1}"#), json(r#"{"a":2}"#)]),
        ]
    );
}

#[test]
fn hits_with_aggregations() {
    let blocks = normalize_search(result(Some(3), &[r#"{"a":1}"#], &[("by_host", r#"{"buckets":[]}"#)]));
    assert_eq!(
        blocks,
        vec![
            text("Total results: 3, showing 1."),
            OutputBlock::Documents(vec![json(r#"{"a":1}"#)]),
            text("Aggregations results:"),
            OutputBlock::Aggregations(aggregations(&[("by_host", r#"{"buckets":[]}"#)])),
        ]
    );
}

#[test]
fn pure_aggregation_has_no_count_block() {
    let blocks = normalize_search(result(Some(1000), &[], &[("avg_cpu", r#"{"value":0.5}"#)]));
    assert_eq!(
        blocks,
        vec![
            text("Aggregations results:"),
            OutputBlock::Aggregations(aggregations(&[("avg_cpu", r#"{"value":0.5}"#)])),
        ]
    );
}

#[test]
fn empty_response_still_has_the_count_block() {
    assert_eq!(normalize_search(result(Some(0), &[], &[])), vec![text("Total results: 0, showing 0.")]);
}

#[test]
fn uncounted_total_is_unknown() {
    assert_eq!(
        normalize_search(result(None, &["1"], &[])),
        vec![text("Total results: unknown, showing 1."), OutputBlock::Documents(vec![json("1")])]
    );
}

#[test]
fn aggregations_keep_the_order_of_the_response() {
    let entries = [("zeta", "1"), ("alpha", "2"), ("mid", "3")];
    let blocks = normalize_search(result(None, &[], &entries));
    match &blocks[1] {
        OutputBlock::Aggregations(map) => {
            let keys: Vec<&str> = map.keys().map(|k| k.as_str()).collect();
            assert_eq!(keys, vec!["zeta", "alpha", "mid"]);
        }
        other => panic!("unexpected block {:?}", other),
    }
}

#[test]
fn large_totals_are_written_in_full() {
    assert_eq!(
        normalize_search(result(Some(u64::MAX), &[], &[])),
        vec![text("Total results: 18446744073709551615, showing 0.")]
    );
}

#[test]
fn records_have_a_heading_and_the_hits() {
    assert_eq!(
        normalize_records(RecordKind::Observability, "now-1h", result(Some(12), &["1", "2"], &[])),
        vec![
            text("Found 12 observability records in time range now-1h:"),
            OutputBlock::Documents(vec![json("1"), json("2")]),
        ]
    );
    assert_eq!(
        normalize_records(RecordKind::Trace, "a,b", result(None, &["1"], &[])),
        vec![
            text("Found unknown trace records in time range a,b:"),
            OutputBlock::Documents(vec![json("1")]),
        ]
    );
    assert_eq!(
        normalize_records(RecordKind::Log, "", result(Some(0), &[], &[("ignored", "1")])),
        vec![text("Found 0 log records in time range :")]
    );
}

#[test]
fn record_kinds_have_words() {
    assert_eq!(RecordKind::Observability.word(), "observability");
    assert_eq!(RecordKind::Trace.word(), "trace");
    assert_eq!(RecordKind::Log.word(), "log");
}

#[test]
fn metrics_have_a_heading_and_the_aggregations() {
    assert_eq!(
        normalize_metrics("cpu", "AVG", "now-1d", result(Some(9), &["1"], &[("metric_agg", r#"{"value":1}"#)])),
        vec![
            text("Metrics aggregation for field 'cpu' with AVG aggregation in time range now-1d:"),
            OutputBlock::Aggregations(aggregations(&[("metric_agg", r#"{"value":1}"#)])),
        ]
    );
    assert_eq!(
        normalize_metrics("cpu", "sum", "x", result(None, &[], &[])),
        vec![text("Metrics aggregation for field 'cpu' with sum aggregation in time range x:")]
    );
}

#[test]
fn context_decides_the_layout() {
    let make = || result(Some(2), &["1"], &[("m", "1")]);
    assert_eq!(normalize(make(), &SearchContext::Search), normalize_search(make()));
    let records = SearchContext::Records { kind: RecordKind::Log, time_range: "now-1h".to_string() };
    assert_eq!(normalize(make(), &records), normalize_records(RecordKind::Log, "now-1h", make()));
    let metrics = SearchContext::Metrics {
        field: "cpu".to_string(),
        aggregation: "avg".to_string(),
        time_range: "now-1h".to_string(),
    };
    assert_eq!(normalize(make(), &metrics), normalize_metrics("cpu", "avg", "now-1h", make()));
    assert_eq!(
        normalize(make(), &metrics),
        vec![
            text("Metrics aggregation for field 'cpu' with avg aggregation in time range now-1h:"),
            OutputBlock::Aggregations(aggregations(&[("m", "1")])),
        ]
    );
}

#[test]
fn every_searching_tool_has_a_context() {
    let time_range = " 2024-01-01 ,2024-01-02".to_string();
    assert_eq!(
        context_of(&ToolParameters::Search(SearchParams {
            index: "logs".to_string(),
            fields: None,
            query_body: serde_json::Map::new(),
        })),
        Some(SearchContext::Search)
    );
    assert_eq!(
        context_of(&ToolParameters::ObservabilityQuery(ObservabilityQueryParams {
            index_pattern: "m-*".to_string(),
            time_range: time_range.clone(),
            filters: None,
            size: None,
        })),
        Some(SearchContext::Records { kind: RecordKind::Observability, time_range: time_range.clone() })
    );
    assert_eq!(
        context_of(&ToolParameters::TraceAnalysis(TraceAnalysisParams {
            index_pattern: "t-*".to_string(),
            time_range: time_range.clone(),
            trace_id: None,
            service_name: None,
            operation_name: None,
            size: None,
        })),
        Some(SearchContext::Records { kind: RecordKind::Trace, time_range: time_range.clone() })
    );
    assert_eq!(
        context_of(&ToolParameters::LogAnalysis(LogAnalysisParams {
            index_pattern: "l-*".to_string(),
            time_range: time_range.clone(),
            log_level: None,
            service_name: None,
            search_query: None,
            size: None,
        })),
        Some(SearchContext::Records { kind: RecordKind::Log, time_range: time_range.clone() })
    );
    assert_eq!(
        context_of(&ToolParameters::MetricsAggregation(MetricsAggregationParams {
            index_pattern: "m-*".to_string(),
            time_range: time_range.clone(),
            metric_field: "cpu".to_string(),
            aggregation_type: "Sum".to_string(),
            group_by: None,
            filters: None,
        })),
        Some(SearchContext::Metrics {
            field: "cpu".to_string(),
            aggregation: "Sum".to_string(),
            time_range,
        })
    );
}

#[test]
fn other_tools_have_no_context() {
    assert_eq!(
        context_of(&ToolParameters::ListIndices(ListIndicesParams { index_pattern: "*".to_string() })),
        None
    );
    assert_eq!(
        context_of(&ToolParameters::GetMappings(GetMappingsParams { index: "logs".to_string() })),
        None
    );
    assert_eq!(
        context_of(&ToolParameters::EsqlLikeQuery(EsqlQueryParams { query: "FROM x".to_string() })),
        None
    );
    assert_eq!(context_of(&ToolParameters::GetShards(GetShardsParams { index: None })), None);
    assert_eq!(context_of(&ToolParameters::HealthCheck(HealthCheckParams { index: None })), None);
}
