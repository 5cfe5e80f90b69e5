//! Search responses and their normalization.
//!
//! A search response is turned into at most three groups of blocks, always
//! in this order: a line with the counts, the source documents of the hits
//! as one block, and the aggregations under a label. The line with the
//! counts is left out of a response that has aggregations and no hits: on
//! a pure aggregation it would mislead.

use crate::blocks::{block_models, push_block, BlockModel, OutputBlock};
use crate::json::{has_no_members, models, ordered_members, value_model, JsonModel};
use crate::params::ToolParameters;
use crate::text::{decimal, decimal_string};
use indexmap::IndexMap;
use serde_json::Value;
use vstd::prelude::*;

verus! {

/// The response to a search.
#[derive(Debug, PartialEq)]
pub struct SearchResult {
    pub hits: Hits,
    /// Aggregation results by name, in the order of the response.
    pub aggregations: IndexMap<String, Value>,
}

/// The hits of a search response.
#[derive(Debug, PartialEq)]
pub struct Hits {
    /// The number of matches, if the cluster counted them.
    pub total: Option<TotalHits>,
    /// The hits that were returned.
    pub hits: Vec<Hit>,
}

/// The number of documents that matched.
#[derive(Debug, PartialEq)]
pub struct TotalHits {
    pub value: u64,
}

/// A matched document.
#[derive(Debug, PartialEq)]
pub struct Hit {
    /// The stored fields of the document.
    pub source: Value,
}

/// The kind of record that a time-based tool looks for.
#[derive(Clone, Copy, Debug, PartialEq, Eq, Structural)]
pub enum RecordKind {
    Observability,
    Trace,
    Log,
}

/// What a search response is the answer to. It decides how the response
/// is laid out in blocks.
#[derive(Debug, PartialEq)]
pub enum SearchContext {
    /// A free-form search.
    Search,
    /// A time-based tool that returns records of one kind.
    Records { kind: RecordKind, time_range: String },
    /// A metrics aggregation.
    Metrics { field: String, aggregation: String, time_range: String },
}

/// The mathematical content of a [`SearchContext`].
pub enum ContextModel {
    Search,
    Records { kind: RecordKind, time_range: Seq<char> },
    Metrics { field: Seq<char>, aggregation: Seq<char>, time_range: Seq<char> },
}

impl View for SearchContext {
    type V = ContextModel;

    open spec fn view(&self) -> ContextModel {
        match self {
            SearchContext::Search => ContextModel::Search,
            SearchContext::Records { kind, time_range } => ContextModel::Records {
                kind: *kind,
                time_range: time_range@,
            },
            SearchContext::Metrics { field, aggregation, time_range } => ContextModel::Metrics {
                field: field@,
                aggregation: aggregation@,
                time_range: time_range@,
            },
        }
    }
}

/// The word for a kind of record.
pub open spec fn kind_word(kind: RecordKind) -> Seq<char> {
    match kind {
        RecordKind::Observability => "observability"@,
        RecordKind::Trace => "trace"@,
        RecordKind::Log => "log"@,
    }
}

/// The number of matches as text; `unknown` if the cluster did not count.
pub open spec fn total_text(total: Option<TotalHits>) -> Seq<char> {
    match total {
        Some(t) => decimal(t.value as nat),
        None => "unknown"@,
    }
}

/// The source documents of a list of hits, in order.
pub open spec fn sources(hits: Seq<Hit>) -> Seq<JsonModel> {
    hits.map_values(|hit: Hit| value_model(hit.source))
}

/// The line with the counts of a search.
pub open spec fn count_line(total: Option<TotalHits>, shown: nat) -> Seq<char> {
    "Total results: "@ + total_text(total) + ", showing "@ + decimal(shown) + "."@
}

/// The heading of the records that a time-based tool found.
pub open spec fn records_line(
    total: Option<TotalHits>,
    kind: RecordKind,
    time_range: Seq<char>,
) -> Seq<char> {
    "Found "@ + total_text(total) + " "@ + kind_word(kind) + " records in time range "@
        + time_range + ":"@
}

/// The heading of a metrics aggregation.
pub open spec fn metrics_line(
    field: Seq<char>,
    aggregation: Seq<char>,
    time_range: Seq<char>,
) -> Seq<char> {
    "Metrics aggregation for field '"@ + field + "' with "@ + aggregation
        + " aggregation in time range "@ + time_range + ":"@
}

/// Whether a search response has hits.
pub open spec fn has_hits(result: SearchResult) -> bool {
    result.hits.hits@.len() > 0
}

/// Whether a search response has aggregations.
pub open spec fn has_aggregations(result: SearchResult) -> bool {
    ordered_members(result.aggregations).len() > 0
}

/// The count block of a search response, unless the response is a pure
/// aggregation.
pub open spec fn count_part(result: SearchResult) -> Seq<BlockModel> {
    if !has_aggregations(result) || has_hits(result) {
        seq![BlockModel::Text(count_line(result.hits.total, result.hits.hits@.len()))]
    } else {
        seq![]
    }
}

/// The block with the source documents of the hits, if there are hits.
pub open spec fn hits_part(result: SearchResult) -> Seq<BlockModel> {
    if has_hits(result) {
        seq![BlockModel::Documents(sources(result.hits.hits@))]
    } else {
        seq![]
    }
}

/// The aggregations under their label, if there are aggregations.
pub open spec fn aggregations_part(result: SearchResult) -> Seq<BlockModel> {
    if has_aggregations(result) {
        seq![
            BlockModel::Text("Aggregations results:"@),
            BlockModel::Aggregations(ordered_members(result.aggregations)),
        ]
    } else {
        seq![]
    }
}

/// The blocks of a search response: counts, hits, aggregations.
pub open spec fn search_blocks(result: SearchResult) -> Seq<BlockModel> {
    count_part(result) + hits_part(result) + aggregations_part(result)
}

/// The blocks of the records that a time-based tool found: the heading,
/// then the hits.
pub open spec fn record_blocks(
    kind: RecordKind,
    time_range: Seq<char>,
    result: SearchResult,
) -> Seq<BlockModel> {
    seq![BlockModel::Text(records_line(result.hits.total, kind, time_range))] + hits_part(result)
}

/// The blocks of a metrics aggregation: the heading, then the
/// aggregations without a label of their own.
pub open spec fn metrics_blocks(
    field: Seq<char>,
    aggregation: Seq<char>,
    time_range: Seq<char>,
    result: SearchResult,
) -> Seq<BlockModel> {
    seq![BlockModel::Text(metrics_line(field, aggregation, time_range))] + (if has_aggregations(
        result,
    ) {
        seq![BlockModel::Aggregations(ordered_members(result.aggregations))]
    } else {
        seq![]
    })
}

/// The blocks of a search response in its context.
pub open spec fn blocks_in(context: ContextModel, result: SearchResult) -> Seq<BlockModel> {
    match context {
        ContextModel::Search => search_blocks(result),
        ContextModel::Records { kind, time_range } => record_blocks(kind, time_range, result),
        ContextModel::Metrics { field, aggregation, time_range } => metrics_blocks(
            field,
            aggregation,
            time_range,
            result,
        ),
    }
}

/// The context of the search that a tool call sends; `None` for the tools
/// that do not search. The headings repeat the parameters as the caller
/// wrote them.
pub open spec fn context_for(params: ToolParameters) -> Option<ContextModel> {
    match params {
        ToolParameters::Search(_) => Some(ContextModel::Search),
        ToolParameters::ObservabilityQuery(p) => Some(
            ContextModel::Records { kind: RecordKind::Observability, time_range: p.time_range@ },
        ),
        ToolParameters::TraceAnalysis(p) => Some(
            ContextModel::Records { kind: RecordKind::Trace, time_range: p.time_range@ },
        ),
        ToolParameters::LogAnalysis(p) => Some(
            ContextModel::Records { kind: RecordKind::Log, time_range: p.time_range@ },
        ),
        ToolParameters::MetricsAggregation(p) => Some(
            ContextModel::Metrics {
                field: p.metric_field@,
                aggregation: p.aggregation_type@,
                time_range: p.time_range@,
            },
        ),
        _ => None,
    }
}

impl RecordKind {
    /// The word for this kind of record.
    pub fn word(self) -> (s: &'static str)
        ensures
            s@ == kind_word(self),
    {
        match self {
            RecordKind::Observability => "observability",
            RecordKind::Trace => "trace",
            RecordKind::Log => "log",
        }
    }
}

/// Renders the number of matches.
fn render_total(total: &Option<TotalHits>) -> (s: String)
    ensures
        s@ == total_text(*total),
{
    match total {
        Some(t) => decimal_string(t.value),
        None => "unknown".to_owned(),
    }
}

/// Takes the source documents out of a list of hits.
pub fn extract_sources(hits: Vec<Hit>) -> (documents: Vec<Value>)
    ensures
        models(documents@) == sources(hits@),
{
    let mut documents: Vec<Value> = Vec::new();
    for hit in it: hits.into_iter()
        invariant
            it.seq() == hits@,
            models(documents@) == sources(hits@.take(it.index() as int)),
    {
        let ghost i = it.index() as int;
        documents.push(hit.source);
        proof {
            assert(sources(hits@.take(i + 1)) =~= sources(hits@.take(i)).push(
                value_model(hits@[i].source),
            ));
        }
    }
    documents
}

/// Appends the block with the source documents of the hits, if any.
fn push_hits(blocks: &mut Vec<OutputBlock>, hits: Vec<Hit>)
    ensures
        block_models(final(blocks)@) == block_models(old(blocks)@) + (if hits@.len() > 0 {
            seq![BlockModel::Documents(sources(hits@))]
        } else {
            seq![]
        }),
{
    if hits.len() > 0 {
        let documents = extract_sources(hits);
        push_block(blocks, OutputBlock::Documents(documents));
    }
}

/// Normalizes the response to a free-form search.
pub fn normalize_search(result: SearchResult) -> (blocks: Vec<OutputBlock>)
    ensures
        block_models(blocks@) == search_blocks(result),
{
    let SearchResult { hits, aggregations } = result;
    let Hits { total, hits } = hits;
    let aggregated = !has_no_members(&aggregations);
    let mut blocks: Vec<OutputBlock> = Vec::new();
    if !aggregated || hits.len() > 0 {
        let mut line = "Total results: ".to_owned();
        line.append(render_total(&total).as_str());
        line.append(", showing ");
        line.append(decimal_string(hits.len() as u64).as_str());
        line.append(".");
        push_block(&mut blocks, OutputBlock::Text(line));
    }
    push_hits(&mut blocks, hits);
    if aggregated {
        push_block(&mut blocks, OutputBlock::Text("Aggregations results:".to_owned()));
        push_block(&mut blocks, OutputBlock::Aggregations(aggregations));
    }
    blocks
}

/// Normalizes the response to a time-based tool that returns records.
/// The heading repeats the time range as the caller wrote it.
pub fn normalize_records(kind: RecordKind, time_range: &str, result: SearchResult) -> (blocks: Vec<
    OutputBlock,
>)
    ensures
        block_models(blocks@) == record_blocks(kind, time_range@, result),
{
    let SearchResult { hits, aggregations } = result;
    let Hits { total, hits } = hits;
    let mut line = "Found ".to_owned();
    line.append(render_total(&total).as_str());
    line.append(" ");
    line.append(kind.word());
    line.append(" records in time range ");
    line.append(time_range);
    line.append(":");
    let mut blocks: Vec<OutputBlock> = Vec::new();
    push_block(&mut blocks, OutputBlock::Text(line));
    push_hits(&mut blocks, hits);
    blocks
}

/// Normalizes the response to a metrics aggregation. The heading repeats
/// the field, the aggregation name and the time range as the caller wrote
/// them.
pub fn normalize_metrics(
    field: &str,
    aggregation: &str,
    time_range: &str,
    result: SearchResult,
) -> (blocks: Vec<OutputBlock>)
    ensures
        block_models(blocks@) == metrics_blocks(field@, aggregation@, time_range@, result),
{
    let SearchResult { hits, aggregations } = result;
    let mut line = "Metrics aggregation for field '".to_owned();
    line.append(field);
    line.append("' with ");
    line.append(aggregation);
    line.append(" aggregation in time range ");
    line.append(time_range);
    line.append(":");
    let mut blocks: Vec<OutputBlock> = Vec::new();
    push_block(&mut blocks, OutputBlock::Text(line));
    if !has_no_members(&aggregations) {
        push_block(&mut blocks, OutputBlock::Aggregations(aggregations));
    }
    blocks
}

/// Normalizes a search response in its context.
pub fn normalize(result: SearchResult, context: &SearchContext) -> (blocks: Vec<OutputBlock>)
    ensures
        block_models(blocks@) == blocks_in(context@, result),
{
    match context {
        SearchContext::Search => normalize_search(result),
        SearchContext::Records { kind, time_range } => normalize_records(
            *kind,
            time_range.as_str(),
            result,
        ),
        SearchContext::Metrics { field, aggregation, time_range } => normalize_metrics(
            field.as_str(),
            aggregation.as_str(),
            time_range.as_str(),
            result,
        ),
    }
}

/// Finds the context of the search that a tool call sends.
pub fn context_of(params: &ToolParameters) -> (context: Option<SearchContext>)
    ensures
        match context {
            Some(c) => context_for(*params) == Some(c@),
            None => context_for(*params) is None,
        },
{
    match params {
        ToolParameters::Search(_) => Some(SearchContext::Search),
        ToolParameters::ObservabilityQuery(p) => Some(
            SearchContext::Records {
                kind: RecordKind::Observability,
                time_range: p.time_range.clone(),
            },
        ),
        ToolParameters::TraceAnalysis(p) => Some(
            SearchContext::Records { kind: RecordKind::Trace, time_range: p.time_range.clone() },
        ),
        ToolParameters::LogAnalysis(p) => Some(
            SearchContext::Records { kind: RecordKind::Log, time_range: p.time_range.clone() },
        ),
        ToolParameters::MetricsAggregation(p) => Some(
            SearchContext::Metrics {
                field: p.metric_field.clone(),
                aggregation: p.aggregation_type.clone(),
                time_range: p.time_range.clone(),
            },
        ),
        _ => None,
    }
}

/// A response without hits and with aggregations has no count block: its
/// blocks are the label and the aggregations.
pub proof fn lemma_pure_aggregation_has_no_count(result: SearchResult)
    requires
        !has_hits(result),
        has_aggregations(result),
    ensures
        search_blocks(result) == seq![
            BlockModel::Text("Aggregations results:"@),
            BlockModel::Aggregations(ordered_members(result.aggregations)),
        ],
{
}

/// A response with hits starts with the count block, then the hits,
/// whether or not it has aggregations.
pub proof fn lemma_hits_are_counted(result: SearchResult)
    requires
        has_hits(result),
    ensures
        search_blocks(result).len() >= 2,
        search_blocks(result)[0] == BlockModel::Text(
            count_line(result.hits.total, result.hits.hits@.len()),
        ),
        search_blocks(result)[1] == BlockModel::Documents(sources(result.hits.hits@)),
{
}

} // verus!
