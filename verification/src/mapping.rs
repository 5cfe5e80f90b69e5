//! Index mappings, as the cluster reports them. The crate hands them on
//! without looking inside.

use crate::blocks::{block_models, push_block, BlockModel, OutputBlock};
use serde_json::Value;
use std::collections::HashMap;
use vstd::prelude::*;

verus! {

/// The mappings of one index.
#[derive(Debug, PartialEq)]
pub struct Mappings {
    pub mappings: Mapping,
}

/// The field mappings of an index, with its metadata.
#[derive(Debug, PartialEq)]
pub struct Mapping {
    pub meta: Option<serde_json::Map<String, Value>>,
    pub properties: HashMap<String, MappingProperty>,
}

/// The mapping of one field: its type and the settings of that type.
#[derive(Debug, PartialEq)]
pub struct MappingProperty {
    pub type_: String,
    pub settings: HashMap<String, Value>,
}

/// The heading of the mappings of an index.
pub open spec fn mappings_line(index: Seq<char>) -> Seq<char> {
    "Mappings for index "@ + index + ":"@
}

/// The blocks of a mapping lookup: the heading with the name that was
/// asked for, then the first of the mappings that were found. A wildcard
/// may match several indices; the others are left out. `None` if none was
/// found.
pub fn mapping_blocks(index: &str, found: Vec<Mappings>) -> (r: Option<Vec<OutputBlock>>)
    ensures
        match r {
            Some(blocks) => found@.len() > 0 && block_models(blocks@) == seq![
                BlockModel::Text(mappings_line(index@)),
                BlockModel::Mapping(found@[0]),
            ],
            None => found@.len() == 0,
        },
{
    if found.len() == 0 {
        return None;
    }
    let mut found = found;
    let first = found.remove(0);
    let mut line = "Mappings for index ".to_owned();
    line.append(index);
    line.append(":");
    let mut blocks: Vec<OutputBlock> = Vec::new();
    push_block(&mut blocks, OutputBlock::Text(line));
    push_block(&mut blocks, OutputBlock::Mapping(first));
    Some(blocks)
}

} // verus!
