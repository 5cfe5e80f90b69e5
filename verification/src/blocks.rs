//! Output blocks: what a tool call returns, in order. A block is a line of
//! text or a piece of structured data that the caller serialises.

use crate::admin::{CatIndexResponse, CatShardsResponse, IndexRowModel, ShardRowModel};
use crate::json::{models, ordered_members, value_model, JsonModel};
use crate::mapping::Mappings;
use indexmap::IndexMap;
use serde_json::Value;
use vstd::prelude::*;

verus! {

/// One block of a tool's output.
#[derive(Debug, PartialEq)]
pub enum OutputBlock {
    /// A line of text.
    Text(String),
    /// A list of documents, sent as one block.
    Documents(Vec<Value>),
    /// A single document.
    Document(Value),
    /// Aggregation results by name, in the order of the response.
    Aggregations(IndexMap<String, Value>),
    /// Rows of the index listing.
    Indices(Vec<CatIndexResponse>),
    /// Rows of the shard listing.
    Shards(Vec<CatShardsResponse>),
    /// The mappings of an index.
    Mapping(Mappings),
}

/// The mathematical content of an [`OutputBlock`].
pub enum BlockModel {
    Text(Seq<char>),
    Documents(Seq<JsonModel>),
    Document(JsonModel),
    Aggregations(Seq<(Seq<char>, JsonModel)>),
    Indices(Seq<IndexRowModel>),
    Shards(Seq<ShardRowModel>),
    Mapping(Mappings),
}

impl View for OutputBlock {
    type V = BlockModel;

    open spec fn view(&self) -> BlockModel {
        match self {
            OutputBlock::Text(line) => BlockModel::Text(line@),
            OutputBlock::Documents(documents) => BlockModel::Documents(models(documents@)),
            OutputBlock::Document(document) => BlockModel::Document(value_model(*document)),
            OutputBlock::Aggregations(results) => BlockModel::Aggregations(
                ordered_members(*results),
            ),
            OutputBlock::Indices(rows) => BlockModel::Indices(
                rows@.map_values(|row: CatIndexResponse| row@),
            ),
            OutputBlock::Shards(rows) => BlockModel::Shards(
                rows@.map_values(|row: CatShardsResponse| row@),
            ),
            OutputBlock::Mapping(mappings) => BlockModel::Mapping(*mappings),
        }
    }
}

/// The contents of a list of blocks, in order.
pub open spec fn block_models(blocks: Seq<OutputBlock>) -> Seq<BlockModel> {
    blocks.map_values(|block: OutputBlock| block@)
}

/// Appends a block to a list of blocks.
pub fn push_block(blocks: &mut Vec<OutputBlock>, block: OutputBlock)
    ensures
        block_models(final(blocks)@) == block_models(old(blocks)@).push(block@),
{
    blocks.push(block);
}

} // verus!
