//! Query assembly.
//!
//! Every time-based tool sends a query of one shape: a `size`, a boolean
//! query whose `must` list starts with a range filter on the timestamp
//! field, and either a descending sort on the timestamp (tools that return
//! hits) or an `aggs` member (tools that only aggregate). The clauses that
//! follow the range filter come in a fixed order: exact-term filters for
//! the optional parameters that are present, then the free-text match.
//!
//! A filter fragment that the caller supplies is trusted: its `query`
//! member, when it is an object, is passed on as one more clause without
//! being examined.
//!
//! The only input that assembly rejects is a malformed time range.

use crate::aggregation::{build_metric_aggregation, metric_aggregation};
use crate::error::{ErrorModel, ToolError};
use crate::json::{
    as_array, as_object, clone_values, integer, json_array, json_object, json_unsigned, models,
    new_object, no_members, object1, object2, object_get, object_insert, object_model,
    push_texts, single_member, text_value, texts, two_members, value_model, views, JsonModel,
};
use crate::params::{
    LogAnalysisParams, MetricsAggregationParams, ObservabilityQueryParams, SearchParams,
    TraceAnalysisParams,
};
use crate::time_range::{invalid_time_range_text, parse_time_range, resolved};
use serde_json::Value;
use vstd::prelude::*;

verus! {

/// Number of hits asked for when the caller names none.
pub const DEFAULT_SIZE: u32 = 100;

/// Largest number of groups in a grouped aggregation.
pub const GROUP_LIMIT: u64 = 100;

/// The filter `{"range": {"@timestamp": {"gte": start, "lte": end}}}`.
pub open spec fn range_filter_model(start: Seq<char>, end: Seq<char>) -> JsonModel {
    object1(
        "range"@,
        object1(
            "@timestamp"@,
            object2("gte"@, JsonModel::Str(start), "lte"@, JsonModel::Str(end)),
        ),
    )
}

/// The filter `{"term": {field: value}}`.
pub open spec fn term_filter_model(field: Seq<char>, value: Seq<char>) -> JsonModel {
    object1("term"@, object1(field, JsonModel::Str(value)))
}

/// The fields that a free-text match looks into.
pub open spec fn message_fields() -> Seq<JsonModel> {
    seq![JsonModel::Str("message"@), JsonModel::Str("log.message"@), JsonModel::Str("message.raw"@)]
}

/// The filter `{"multi_match": {"query": text, "fields": [...]}}`.
pub open spec fn text_match_model(text: Seq<char>) -> JsonModel {
    object1(
        "multi_match"@,
        object2("query"@, JsonModel::Str(text), "fields"@, JsonModel::Array(message_fields())),
    )
}

/// The query `{"bool": {"must": clauses}}`.
pub open spec fn all_of_model(clauses: Seq<JsonModel>) -> JsonModel {
    object1("bool"@, object1("must"@, JsonModel::Array(clauses)))
}

/// The sort `[{"@timestamp": {"order": "desc"}}]`.
pub open spec fn newest_first_model() -> JsonModel {
    JsonModel::Array(seq![object1("@timestamp"@, object1("order"@, JsonModel::Str("desc"@)))])
}

/// The clause for an optional exact-term parameter: one term filter if the
/// parameter is present, nothing otherwise.
pub open spec fn optional_term(field: Seq<char>, value: Option<String>) -> Seq<JsonModel> {
    match value {
        Some(v) => seq![term_filter_model(field, v@)],
        None => seq![],
    }
}

/// The clause for an optional free-text parameter.
pub open spec fn optional_text_match(text: Option<String>) -> Seq<JsonModel> {
    match text {
        Some(t) => seq![text_match_model(t@)],
        None => seq![],
    }
}

/// The clause that a filter fragment contributes: its `query` member if
/// that is an object, nothing otherwise.
pub open spec fn fragment_clause(fragment: Map<Seq<char>, JsonModel>) -> Seq<JsonModel> {
    if fragment.dom().contains("query"@) && fragment["query"@] is Object {
        seq![fragment["query"@]]
    } else {
        seq![]
    }
}

/// The clause that an optional filter fragment contributes.
pub open spec fn spliced(filters: Option<serde_json::Map<String, Value>>) -> Seq<JsonModel> {
    match filters {
        Some(fragment) => fragment_clause(object_model(fragment)),
        None => seq![],
    }
}

/// The number of hits to ask for.
pub open spec fn size_or_default(size: Option<u32>) -> int {
    match size {
        Some(n) => n as int,
        None => DEFAULT_SIZE as int,
    }
}

/// The query of a tool that returns hits: the wanted size, all of `must`,
/// newest first.
pub open spec fn hits_query(size: Option<u32>, must: Seq<JsonModel>) -> Map<Seq<char>, JsonModel> {
    no_members().insert("size"@, integer(size_or_default(size))).insert(
        "query"@,
        all_of_model(must),
    ).insert("sort"@, newest_first_model())
}

/// The query of a tool that only aggregates: no hits, all of `must`, the
/// aggregations; no sort.
pub open spec fn aggregation_query(
    must: Seq<JsonModel>,
    aggregations: Map<Seq<char>, JsonModel>,
) -> Map<Seq<char>, JsonModel> {
    no_members().insert("size"@, integer(0)).insert("query"@, all_of_model(must)).insert(
        "aggs"@,
        JsonModel::Object(aggregations),
    )
}

/// The aggregations of a metrics query: the metric clause alone, or, when
/// a grouping field is given, a terms aggregation on that field that holds
/// the metric clause.
pub open spec fn metric_aggregations(
    group_by: Option<String>,
    metric: JsonModel,
) -> Map<Seq<char>, JsonModel> {
    match group_by {
        Some(field) => no_members().insert(
            "grouped_metrics"@,
            object2(
                "terms"@,
                object2("field"@, JsonModel::Str(field@), "size"@, integer(GROUP_LIMIT as int)),
                "aggs"@,
                object1("metric_agg"@, metric),
            ),
        ),
        None => no_members().insert("metric_agg"@, metric),
    }
}

/// The clauses of the observability query: the range filter, then what
/// the filter fragment contributes.
pub open spec fn observability_must(
    p: ObservabilityQueryParams,
    start: Seq<char>,
    end: Seq<char>,
) -> Seq<JsonModel> {
    seq![range_filter_model(start, end)] + spliced(p.filters)
}

/// The clauses of the metrics aggregation: the range filter, then what
/// the filter fragment contributes.
pub open spec fn metrics_must(
    p: MetricsAggregationParams,
    start: Seq<char>,
    end: Seq<char>,
) -> Seq<JsonModel> {
    seq![range_filter_model(start, end)] + spliced(p.filters)
}

/// The clauses of the trace analysis: the range filter, then the term
/// filters on the trace, the service and the operation.
pub open spec fn trace_must(p: TraceAnalysisParams, start: Seq<char>, end: Seq<char>) -> Seq<
    JsonModel,
> {
    seq![range_filter_model(start, end)] + optional_term("trace.id"@, p.trace_id) + optional_term(
        "service.name"@,
        p.service_name,
    ) + optional_term("span.name"@, p.operation_name)
}

/// The clauses of the log analysis: the range filter, then the term
/// filters on the level and the service, then the free-text match.
pub open spec fn log_must(p: LogAnalysisParams, start: Seq<char>, end: Seq<char>) -> Seq<
    JsonModel,
> {
    seq![range_filter_model(start, end)] + optional_term("log.level"@, p.log_level)
        + optional_term("service.name"@, p.service_name) + optional_text_match(p.search_query)
}

/// The query body of the observability query; `None` if the time range is
/// rejected.
pub open spec fn observability_body(p: ObservabilityQueryParams) -> Option<
    Map<Seq<char>, JsonModel>,
> {
    match resolved(p.time_range@) {
        Some((start, end)) => Some(hits_query(p.size, observability_must(p, start, end))),
        None => None,
    }
}

/// The query body of the metrics aggregation; `None` if the time range is
/// rejected.
pub open spec fn metrics_body(p: MetricsAggregationParams) -> Option<Map<Seq<char>, JsonModel>> {
    match resolved(p.time_range@) {
        Some((start, end)) => Some(
            aggregation_query(
                metrics_must(p, start, end),
                metric_aggregations(
                    p.group_by,
                    metric_aggregation(p.aggregation_type@, p.metric_field@),
                ),
            ),
        ),
        None => None,
    }
}

/// The query body of the trace analysis; `None` if the time range is
/// rejected.
pub open spec fn trace_body(p: TraceAnalysisParams) -> Option<Map<Seq<char>, JsonModel>> {
    match resolved(p.time_range@) {
        Some((start, end)) => Some(hits_query(p.size, trace_must(p, start, end))),
        None => None,
    }
}

/// The query body of the log analysis; `None` if the time range is
/// rejected.
pub open spec fn log_body(p: LogAnalysisParams) -> Option<Map<Seq<char>, JsonModel>> {
    match resolved(p.time_range@) {
        Some((start, end)) => Some(hits_query(p.size, log_must(p, start, end))),
        None => None,
    }
}

/// A query document with the wanted fields merged into its `_source`
/// member: appended to `_source` if that is an array, else put in its
/// place. Without wanted fields the document is unchanged.
pub open spec fn with_source_fields(
    body: Map<Seq<char>, JsonModel>,
    fields: Option<Vec<String>>,
) -> Map<Seq<char>, JsonModel> {
    match fields {
        Some(wanted) => {
            let present = if body.dom().contains("_source"@) {
                match body["_source"@] {
                    JsonModel::Array(items) => items,
                    _ => Seq::empty(),
                }
            } else {
                Seq::empty()
            };
            body.insert("_source"@, JsonModel::Array(present + texts(views(wanted@))))
        },
        None => body,
    }
}

/// The keys that stand side by side in an assembled document are
/// distinct, so that no member replaces another.
pub proof fn lemma_keys_are_distinct()
    ensures
        "size"@ != "query"@,
        "size"@ != "sort"@,
        "size"@ != "aggs"@,
        "query"@ != "sort"@,
        "query"@ != "aggs"@,
        "sort"@ != "aggs"@,
        "gte"@ != "lte"@,
        "query"@ != "fields"@,
        "terms"@ != "aggs"@,
        "field"@ != "size"@,
{
    reveal_strlit("size");
    reveal_strlit("query");
    reveal_strlit("sort");
    reveal_strlit("aggs");
    reveal_strlit("gte");
    reveal_strlit("lte");
    reveal_strlit("fields");
    reveal_strlit("terms");
    reveal_strlit("field");
    assert("size"@[1] != "sort"@[1]);
    assert("gte"@[0] != "lte"@[0]);
    assert("terms"@.len() != "aggs"@.len());
    assert("query"@.len() != "size"@.len());
}

/// The query of a tool that returns hits has three members: the wanted
/// size, or a hundred if none is named, the boolean query over all of
/// the clauses, and the sort that puts the newest first.
pub proof fn lemma_hits_query_members(size: Option<u32>, must: Seq<JsonModel>)
    ensures
        hits_query(size, must).dom() =~= set!["size"@, "query"@, "sort"@],
        hits_query(size, must)["size"@] == integer(size_or_default(size)),
        size is None ==> hits_query(size, must)["size"@] == integer(100),
        hits_query(size, must)["query"@] == all_of_model(must),
        hits_query(size, must)["sort"@] == newest_first_model(),
{
    lemma_keys_are_distinct();
}

/// The query of a tool that only aggregates asks for no hits and has no
/// sort: its members are the size zero, the boolean query over all of
/// the clauses, and the aggregations.
pub proof fn lemma_aggregation_query_members(
    must: Seq<JsonModel>,
    aggregations: Map<Seq<char>, JsonModel>,
)
    ensures
        aggregation_query(must, aggregations).dom() =~= set!["size"@, "query"@, "aggs"@],
        !aggregation_query(must, aggregations).dom().contains("sort"@),
        aggregation_query(must, aggregations)["size"@] == integer(0),
        aggregation_query(must, aggregations)["query"@] == all_of_model(must),
        aggregation_query(must, aggregations)["aggs"@] == JsonModel::Object(aggregations),
{
    lemma_keys_are_distinct();
}

/// Every list of clauses starts with the range filter for the resolved
/// time range.
pub proof fn lemma_range_filter_leads(
    observability: ObservabilityQueryParams,
    metrics: MetricsAggregationParams,
    traces: TraceAnalysisParams,
    logs: LogAnalysisParams,
    start: Seq<char>,
    end: Seq<char>,
)
    ensures
        observability_must(observability, start, end)[0] == range_filter_model(start, end),
        metrics_must(metrics, start, end)[0] == range_filter_model(start, end),
        trace_must(traces, start, end)[0] == range_filter_model(start, end),
        log_must(logs, start, end)[0] == range_filter_model(start, end),
{
}

/// A metric is grouped by a terms aggregation that holds at most a
/// hundred groups, and stands alone if no grouping field is given.
pub proof fn lemma_grouping(group_by: Option<String>, metric: JsonModel)
    ensures
        match group_by {
            Some(field) => {
                let grouped = metric_aggregations(group_by, metric)["grouped_metrics"@];
                &&& metric_aggregations(group_by, metric).dom() =~= set!["grouped_metrics"@]
                &&& grouped matches JsonModel::Object(members)
                &&& members.dom() =~= set!["terms"@, "aggs"@]
                &&& members["terms"@] == object2(
                    "field"@,
                    JsonModel::Str(field@),
                    "size"@,
                    integer(100),
                )
                &&& members["aggs"@] == object1("metric_agg"@, metric)
            },
            None => metric_aggregations(group_by, metric) == no_members().insert(
                "metric_agg"@,
                metric,
            ),
        },
{
    lemma_keys_are_distinct();
}

/// Wanted fields are appended to a `_source` that is an array.
pub proof fn lemma_fields_are_appended(
    body: Map<Seq<char>, JsonModel>,
    listed: Seq<JsonModel>,
    wanted: Vec<String>,
)
    requires
        body.dom().contains("_source"@),
        body["_source"@] == JsonModel::Array(listed),
    ensures
        with_source_fields(body, Some(wanted)) == body.insert(
            "_source"@,
            JsonModel::Array(listed + texts(views(wanted@))),
        ),
{
}

/// Wanted fields become the `_source` of a document that has none.
pub proof fn lemma_fields_are_created(body: Map<Seq<char>, JsonModel>, wanted: Vec<String>)
    requires
        !body.dom().contains("_source"@),
    ensures
        with_source_fields(body, Some(wanted)) == body.insert(
            "_source"@,
            JsonModel::Array(texts(views(wanted@))),
        ),
{
}

/// Builds the range filter on the timestamp field.
pub fn range_filter(start: &str, end: &str) -> (v: Value)
    ensures
        value_model(v) == range_filter_model(start@, end@),
{
    single_member(
        "range",
        single_member(
            "@timestamp",
            two_members("gte", text_value(start), "lte", text_value(end)),
        ),
    )
}

/// Builds an exact-term filter.
pub fn term_filter(field: &str, value: &str) -> (v: Value)
    ensures
        value_model(v) == term_filter_model(field@, value@),
{
    single_member("term", single_member(field, text_value(value)))
}

/// Builds the free-text match over the message fields.
pub fn text_match(text: &str) -> (v: Value)
    ensures
        value_model(v) == text_match_model(text@),
{
    let mut fields: Vec<Value> = Vec::new();
    fields.push(text_value("message"));
    fields.push(text_value("log.message"));
    fields.push(text_value("message.raw"));
    assert(models(fields@) =~= message_fields());
    single_member(
        "multi_match",
        two_members("query", text_value(text), "fields", json_array(fields)),
    )
}

/// Builds the boolean query that asks for all of `clauses`.
pub fn all_of(clauses: Vec<Value>) -> (v: Value)
    ensures
        value_model(v) == all_of_model(models(clauses@)),
{
    single_member("bool", single_member("must", json_array(clauses)))
}

/// Builds the descending sort on the timestamp field.
pub fn newest_first() -> (v: Value)
    ensures
        value_model(v) == newest_first_model(),
{
    let mut keys: Vec<Value> = Vec::new();
    keys.push(single_member("@timestamp", single_member("order", text_value("desc"))));
    assert(models(keys@) =~= seq![
        object1("@timestamp"@, object1("order"@, JsonModel::Str("desc"@))),
    ]);
    json_array(keys)
}

/// Appends one clause to a `must` list.
fn push_clause(must: &mut Vec<Value>, clause: Value)
    ensures
        models(final(must)@) == models(old(must)@) + seq![value_model(clause)],
{
    must.push(clause);
}

/// Appends the term filter of an optional parameter, if it is present.
pub fn push_optional_term(must: &mut Vec<Value>, field: &str, value: &Option<String>)
    ensures
        models(final(must)@) == models(old(must)@) + optional_term(field@, *value),
{
    match value {
        Some(v) => {
            push_clause(must, term_filter(field, v.as_str()));
        },
        None => {},
    }
}

/// Appends the free-text match of an optional parameter, if it is present.
pub fn push_optional_text_match(must: &mut Vec<Value>, text: &Option<String>)
    ensures
        models(final(must)@) == models(old(must)@) + optional_text_match(*text),
{
    match text {
        Some(t) => {
            push_clause(must, text_match(t.as_str()));
        },
        None => {},
    }
}

/// Appends what a filter fragment contributes: a copy of its `query`
/// member if that is an object.
pub fn splice_filters(must: &mut Vec<Value>, filters: &Option<serde_json::Map<String, Value>>)
    ensures
        models(final(must)@) == models(old(must)@) + spliced(*filters),
{
    if let Some(fragment) = filters {
        if let Some(query) = object_get(fragment, "query") {
            if as_object(query).is_some() {
                push_clause(must, query.clone());
            }
        }
    }
}

/// Starts a `must` list with the range filter for a time range.
fn must_for(start: &str, end: &str) -> (must: Vec<Value>)
    ensures
        models(must@) == seq![range_filter_model(start@, end@)],
{
    let mut must: Vec<Value> = Vec::new();
    must.push(range_filter(start, end));
    must
}

/// Composes the query of a tool that returns hits.
pub fn compose_hits_query(size: Option<u32>, must: Vec<Value>) -> (body: serde_json::Map<String, Value>)
    ensures
        object_model(body) == hits_query(size, models(must@)),
{
    let wanted: u32 = match size {
        Some(n) => n,
        None => DEFAULT_SIZE,
    };
    let mut body = new_object();
    object_insert(&mut body, "size".to_owned(), json_unsigned(wanted as u64));
    object_insert(&mut body, "query".to_owned(), all_of(must));
    object_insert(&mut body, "sort".to_owned(), newest_first());
    body
}

/// Composes the query of a tool that only aggregates.
pub fn compose_aggregation_query(
    must: Vec<Value>,
    aggregations: serde_json::Map<String, Value>,
) -> (body: serde_json::Map<String, Value>)
    ensures
        object_model(body) == aggregation_query(models(must@), object_model(aggregations)),
{
    let mut body = new_object();
    object_insert(&mut body, "size".to_owned(), json_unsigned(0));
    object_insert(&mut body, "query".to_owned(), all_of(must));
    object_insert(&mut body, "aggs".to_owned(), json_object(aggregations));
    body
}

/// Builds the aggregations of a metrics query around the metric clause.
pub fn group_metric(group_by: &Option<String>, metric: Value) -> (aggregations: serde_json::Map<
    String,
    Value,
>)
    ensures
        object_model(aggregations) == metric_aggregations(*group_by, value_model(metric)),
{
    let mut aggregations = new_object();
    match group_by {
        Some(field) => {
            let terms = two_members(
                "field",
                text_value(field.as_str()),
                "size",
                json_unsigned(GROUP_LIMIT),
            );
            let grouped = two_members("terms", terms, "aggs", single_member("metric_agg", metric));
            object_insert(&mut aggregations, "grouped_metrics".to_owned(), grouped);
        },
        None => {
            object_insert(&mut aggregations, "metric_agg".to_owned(), metric);
        },
    }
    aggregations
}

/// Assembles the query body of the observability query.
///
/// Fails with `InvalidParameter` exactly when the time range is rejected.
pub fn observability_query(p: &ObservabilityQueryParams) -> (r: Result<
    serde_json::Map<String, Value>,
    ToolError,
>)
    ensures
        match r {
            Ok(body) => observability_body(*p) == Some(object_model(body)),
            Err(e) => observability_body(*p) is None && e@ == ErrorModel::InvalidParameter(
                invalid_time_range_text(),
            ),
        },
{
    match parse_time_range(p.time_range.as_str()) {
        Ok((start, end)) => {
            let mut must = must_for(start.as_str(), end.as_str());
            splice_filters(&mut must, &p.filters);
            Ok(compose_hits_query(p.size, must))
        },
        Err(e) => Err(e),
    }
}

/// Assembles the query body of the metrics aggregation.
///
/// Fails with `InvalidParameter` exactly when the time range is rejected.
pub fn metrics_query(p: &MetricsAggregationParams) -> (r: Result<
    serde_json::Map<String, Value>,
    ToolError,
>)
    ensures
        match r {
            Ok(body) => metrics_body(*p) == Some(object_model(body)),
            Err(e) => metrics_body(*p) is None && e@ == ErrorModel::InvalidParameter(
                invalid_time_range_text(),
            ),
        },
{
    match parse_time_range(p.time_range.as_str()) {
        Ok((start, end)) => {
            let mut must = must_for(start.as_str(), end.as_str());
            splice_filters(&mut must, &p.filters);
            let metric = build_metric_aggregation(
                p.aggregation_type.as_str(),
                p.metric_field.as_str(),
            );
            Ok(compose_aggregation_query(must, group_metric(&p.group_by, metric)))
        },
        Err(e) => Err(e),
    }
}

/// Assembles the query body of the trace analysis.
///
/// Fails with `InvalidParameter` exactly when the time range is rejected.
pub fn trace_query(p: &TraceAnalysisParams) -> (r: Result<serde_json::Map<String, Value>, ToolError>)
    ensures
        match r {
            Ok(body) => trace_body(*p) == Some(object_model(body)),
            Err(e) => trace_body(*p) is None && e@ == ErrorModel::InvalidParameter(
                invalid_time_range_text(),
            ),
        },
{
    match parse_time_range(p.time_range.as_str()) {
        Ok((start, end)) => {
            let mut must = must_for(start.as_str(), end.as_str());
            push_optional_term(&mut must, "trace.id", &p.trace_id);
            push_optional_term(&mut must, "service.name", &p.service_name);
            push_optional_term(&mut must, "span.name", &p.operation_name);
            Ok(compose_hits_query(p.size, must))
        },
        Err(e) => Err(e),
    }
}

/// Assembles the query body of the log analysis.
///
/// Fails with `InvalidParameter` exactly when the time range is rejected.
pub fn log_query(p: &LogAnalysisParams) -> (r: Result<serde_json::Map<String, Value>, ToolError>)
    ensures
        match r {
            Ok(body) => log_body(*p) == Some(object_model(body)),
            Err(e) => log_body(*p) is None && e@ == ErrorModel::InvalidParameter(
                invalid_time_range_text(),
            ),
        },
{
    match parse_time_range(p.time_range.as_str()) {
        Ok((start, end)) => {
            let mut must = must_for(start.as_str(), end.as_str());
            push_optional_term(&mut must, "log.level", &p.log_level);
            push_optional_term(&mut must, "service.name", &p.service_name);
            push_optional_text_match(&mut must, &p.search_query);
            Ok(compose_hits_query(p.size, must))
        },
        Err(e) => Err(e),
    }
}

/// Merges the wanted fields into the `_source` member of a query
/// document. The fields are appended in their order; a field that is
/// already listed is listed again.
pub fn merge_source_fields(
    body: &mut serde_json::Map<String, Value>,
    fields: &Option<Vec<String>>,
)
    ensures
        object_model(*final(body)) == with_source_fields(object_model(*old(body)), *fields),
{
    if let Some(wanted) = fields {
        let mut items: Vec<Value> = Vec::new();
        if let Some(present) = object_get(body, "_source") {
            if let Some(listed) = as_array(present) {
                items = clone_values(listed);
            }
        }
        push_texts(&mut items, wanted);
        object_insert(body, "_source".to_owned(), json_array(items));
    }
}

/// Assembles the query body of the free-form search: the caller's
/// document, with the wanted fields merged into `_source`.
pub fn search_query(p: &SearchParams) -> (body: serde_json::Map<String, Value>)
    ensures
        object_model(body) == with_source_fields(object_model(p.query_body), p.fields),
{
    let mut body = p.query_body.clone();
    merge_source_fields(&mut body, &p.fields);
    body
}

} // verus!
