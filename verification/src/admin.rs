//! Administrative responses: the index listing, the shard listing and the
//! health check.
//!
//! The cluster writes counters as strings, as numbers, or not at all. A
//! counter is read leniently: whatever is not a count becomes an absent
//! value, never a failure.

use crate::blocks::{block_models, push_block, BlockModel, OutputBlock};
use crate::json::{
    holds_no_count, integer, models, plain_count, read_optional_count, value_model, JsonModel,
};
use crate::text::{decimal, decimal_string, lemma_decimal_is_read_back};
use serde_json::Value;
use vstd::prelude::*;

verus! {

/// A row of the index listing.
#[derive(Debug, PartialEq)]
pub struct CatIndexResponse {
    pub index: String,
    pub status: String,
    pub doc_count: Option<u64>,
}

/// A row of the shard listing.
#[derive(Debug, PartialEq)]
pub struct CatShardsResponse {
    pub index: String,
    pub shard: Option<usize>,
    pub prirep: String,
    pub state: String,
    pub docs: Option<u64>,
    pub store: Option<String>,
    pub node: Option<String>,
}

/// The mathematical content of a [`CatIndexResponse`].
pub struct IndexRowModel {
    pub index: Seq<char>,
    pub status: Seq<char>,
    pub doc_count: Option<nat>,
}

/// The mathematical content of a [`CatShardsResponse`].
pub struct ShardRowModel {
    pub index: Seq<char>,
    pub shard: Option<nat>,
    pub prirep: Seq<char>,
    pub state: Seq<char>,
    pub docs: Option<nat>,
    pub store: Option<Seq<char>>,
    pub node: Option<Seq<char>>,
}

/// The view of an optional string.
pub open spec fn optional_text(s: Option<String>) -> Option<Seq<char>> {
    match s {
        Some(text) => Some(text@),
        None => None,
    }
}

/// The count that a lenient reading makes of what was read strictly: the
/// count if one was read, nothing in every other case.
pub open spec fn lenient(outcome: Option<Option<u64>>) -> Option<nat> {
    match outcome {
        Some(Some(n)) => Some(n as nat),
        _ => None,
    }
}

/// The count that a document stands for, if any: the number of an
/// integer or of an unsigned numeral that a `u64` can hold, and nothing
/// for every other document.
pub open spec fn count_of(token: JsonModel) -> Option<nat> {
    lenient(plain_count(token))
}

/// The shard number that a document stands for, if any: a count that a
/// `usize` can hold.
pub open spec fn shard_of(token: JsonModel) -> Option<nat> {
    match count_of(token) {
        Some(n) => if n <= usize::MAX {
            Some(n)
        } else {
            None
        },
        None => None,
    }
}

impl View for CatIndexResponse {
    type V = IndexRowModel;

    open spec fn view(&self) -> IndexRowModel {
        IndexRowModel {
            index: self.index@,
            status: self.status@,
            doc_count: match self.doc_count {
                Some(n) => Some(n as nat),
                None => None,
            },
        }
    }
}

impl View for CatShardsResponse {
    type V = ShardRowModel;

    open spec fn view(&self) -> ShardRowModel {
        ShardRowModel {
            index: self.index@,
            shard: match self.shard {
                Some(n) => Some(n as nat),
                None => None,
            },
            prirep: self.prirep@,
            state: self.state@,
            docs: match self.docs {
                Some(n) => Some(n as nat),
                None => None,
            },
            store: optional_text(self.store),
            node: optional_text(self.node),
        }
    }
}

/// Turns the outcome of a strict reading into a lenient one: a rejected
/// document counts as an absent value.
pub fn count_or_absent(outcome: Result<Option<u64>, serde_json::Error>) -> (count: Option<u64>)
    ensures
        match outcome {
            Ok(read) => count == read,
            Err(_) => count is None,
        },
{
    match outcome {
        Ok(read) => read,
        Err(_) => None,
    }
}

/// Reads a counter leniently: a count written as a number or as a string
/// is read, everything else is an absent count. In particular a null, an
/// empty string and a string that is no numeral, such as a dash, are
/// absent, and an integer or a numeral that a `u64` can hold is the
/// number it stands for.
pub fn coerce_count(token: &Value) -> (count: Option<u64>)
    ensures
        match count {
            Some(n) => count_of(value_model(*token)) == Some(n as nat),
            None => count_of(value_model(*token)) is None,
        },
{
    count_or_absent(read_optional_count(token))
}

/// Reads a shard number leniently.
pub fn coerce_shard(token: &Value) -> (shard: Option<usize>)
    ensures
        match shard {
            Some(n) => shard_of(value_model(*token)) == Some(n as nat),
            None => shard_of(value_model(*token)) is None,
        },
{
    match coerce_count(token) {
        Some(n) => if n <= usize::MAX as u64 {
            Some(n as usize)
        } else {
            None
        },
        None => None,
    }
}

impl CatIndexResponse {
    /// Makes a row of the index listing from the fields of a response row.
    pub fn from_raw(index: String, status: String, doc_count: &Value) -> (row: CatIndexResponse)
        ensures
            row@ == (IndexRowModel {
                index: index@,
                status: status@,
                doc_count: count_of(value_model(*doc_count)),
            }),
    {
        let doc_count = coerce_count(doc_count);
        CatIndexResponse { index, status, doc_count }
    }
}

impl CatShardsResponse {
    /// Makes a row of the shard listing from the fields of a response row.
    pub fn from_raw(
        index: String,
        shard: &Value,
        prirep: String,
        state: String,
        docs: &Value,
        store: Option<String>,
        node: Option<String>,
    ) -> (row: CatShardsResponse)
        ensures
            row@ == (ShardRowModel {
                index: index@,
                shard: shard_of(value_model(*shard)),
                prirep: prirep@,
                state: state@,
                docs: count_of(value_model(*docs)),
                store: optional_text(store),
                node: optional_text(node),
            }),
    {
        let shard = coerce_shard(shard);
        let docs = coerce_count(docs);
        CatShardsResponse { index, shard, prirep, state, docs, store, node }
    }
}

/// Every document either is read with success or holds no count.
pub proof fn lemma_every_document_is_decided(token: JsonModel)
    ensures
        holds_no_count(token) <==> plain_count(token) is None,
        holds_no_count(token) ==> count_of(token) is None,
{
}

/// A count written as a number, or as its decimal numeral in a string,
/// is read as that count.
pub proof fn lemma_counts_are_read(n: u64)
    ensures
        count_of(integer(n as int)) == Some(n as nat),
        count_of(JsonModel::Str(decimal(n as nat))) == Some(n as nat),
{
    lemma_decimal_is_read_back(n as nat);
}

/// An absent value and a dash are read as an absent count.
pub proof fn lemma_absent_and_dash_are_absent()
    ensures
        count_of(JsonModel::Null) is None,
        count_of(JsonModel::Str(Seq::empty())) is None,
        count_of(JsonModel::Str("-"@)) is None,
{
    reveal_strlit("-");
}

/// The line that announces `n` rows of `what`.
pub open spec fn found_line(n: nat, what: Seq<char>) -> Seq<char> {
    "Found "@ + decimal(n) + " "@ + what + ":"@
}

/// Builds the line that announces `n` rows of `what`.
fn found(n: usize, what: &str) -> (line: String)
    ensures
        line@ == found_line(n as nat, what@),
{
    let mut line = "Found ".to_owned();
    line.append(decimal_string(n as u64).as_str());
    line.append(" ");
    line.append(what);
    line.append(":");
    line
}

/// The blocks of the index listing: the number of indices, then the rows.
pub fn index_list_blocks(rows: Vec<CatIndexResponse>) -> (blocks: Vec<OutputBlock>)
    ensures
        block_models(blocks@) == seq![
            BlockModel::Text(found_line(rows@.len(), "indices"@)),
            BlockModel::Indices(rows@.map_values(|row: CatIndexResponse| row@)),
        ],
{
    let mut blocks: Vec<OutputBlock> = Vec::new();
    let line = found(rows.len(), "indices");
    push_block(&mut blocks, OutputBlock::Text(line));
    push_block(&mut blocks, OutputBlock::Indices(rows));
    blocks
}

/// The blocks of the shard listing: the number of shards, then the rows.
pub fn shard_list_blocks(rows: Vec<CatShardsResponse>) -> (blocks: Vec<OutputBlock>)
    ensures
        block_models(blocks@) == seq![
            BlockModel::Text(found_line(rows@.len(), "shards"@)),
            BlockModel::Shards(rows@.map_values(|row: CatShardsResponse| row@)),
        ],
{
    let mut blocks: Vec<OutputBlock> = Vec::new();
    let line = found(rows.len(), "shards");
    push_block(&mut blocks, OutputBlock::Text(line));
    push_block(&mut blocks, OutputBlock::Shards(rows));
    blocks
}

/// The heading of the health of one index.
pub open spec fn index_health_line(index: Seq<char>) -> Seq<char> {
    "Index Health for '"@ + index + "':"@
}

/// The blocks of a health check: the health of the cluster under its
/// heading and, if an index was named, the health of that index under a
/// heading of its own.
pub open spec fn health_blocks_model(
    cluster: JsonModel,
    index: Option<(Seq<char>, Seq<JsonModel>)>,
) -> Seq<BlockModel> {
    let first = seq![BlockModel::Text("Cluster Health:"@), BlockModel::Document(cluster)];
    match index {
        Some((name, rows)) => first + seq![
            BlockModel::Text(index_health_line(name)),
            BlockModel::Documents(rows),
        ],
        None => first,
    }
}

/// The name and the health rows of the index of a health check.
pub open spec fn index_health_model(index: Option<(String, Vec<Value>)>) -> Option<
    (Seq<char>, Seq<JsonModel>),
> {
    match index {
        Some((name, rows)) => Some((name@, models(rows@))),
        None => None,
    }
}

/// Builds the blocks of a health check from the health of the cluster
/// and, if an index was named, the name and the health rows of that index.
pub fn health_blocks(cluster: Value, index: Option<(String, Vec<Value>)>) -> (blocks: Vec<
    OutputBlock,
>)
    ensures
        block_models(blocks@) == health_blocks_model(
            value_model(cluster),
            index_health_model(index),
        ),
{
    let mut blocks: Vec<OutputBlock> = Vec::new();
    push_block(&mut blocks, OutputBlock::Text("Cluster Health:".to_owned()));
    push_block(&mut blocks, OutputBlock::Document(cluster));
    match index {
        Some((name, rows)) => {
            let mut line = "Index Health for '".to_owned();
            line.append(name.as_str());
            line.append("':");
            push_block(&mut blocks, OutputBlock::Text(line));
            push_block(&mut blocks, OutputBlock::Documents(rows));
        },
        None => {},
    }
    blocks
}

} // verus!
