use es_base_tools::blocks::OutputBlock;
use es_base_tools::mapping::{mapping_blocks, Mapping, MappingProperty, Mappings};
use std::collections::HashMap;

fn mappings(field: &str, kind: &str) -> Mappings {
    let mut properties = HashMap::new();
    properties.insert(
        field.to_string(),
        MappingProperty { type_: kind.to_string(), settings: HashMap::new() },
    );
    Mappings { mappings: Mapping { meta: None, properties } }
}

#[test]
fn first_mapping_is_shown() {
    assert_eq!(
        mapping_blocks("logs-*", vec![mappings("message", "text"), mappings("level", "keyword")]),
        Some(vec![
            OutputBlock::Text("Mappings for index logs-*:".to_string()),
            OutputBlock::Mapping(mappings("message", "text")),
        ])
    );
}

#[test]
fn single_mapping_is_shown() {
    assert_eq!(
        mapping_blocks("logs", vec![mappings("message", "text")]),
        Some(vec![
            OutputBlock::Text("Mappings for index logs:".to_string()),
            OutputBlock::Mapping(mappings("message", "text")),
        ])
    );
}

#[test]
fn no_mapping_gives_no_blocks() {
    assert_eq!(mapping_blocks("logs", Vec::new()), None);
}
