use es_base_tools::admin::{
    coerce_count, coerce_shard, count_or_absent, health_blocks, index_list_blocks,
    shard_list_blocks, CatIndexResponse, CatShardsResponse,
};
use es_base_tools::blocks::OutputBlock;
use serde_json::Value;

fn json(text: &str) -> Value {
    serde_json::from_str(text).unwrap()
}

fn text(line: &str) -> OutputBlock {
    OutputBlock::Text(line.to_string())
}

#[test]
fn counts_written_as_strings() {
    assert_eq!(coerce_count(&json(r#""12""#)), Some(12));
    assert_eq!(coerce_count(&json(r#""0""#)), Some(0));
    assert_eq!(coerce_count(&json(r#""007""#)), Some(7));
    assert_eq!(coerce_count(&json(r#""18446744073709551615""#)), Some(u64::MAX));
    assert_eq!(coerce_count(&json(r#""42""#)), Some(42));
    assert_eq!(coerce_count(&json(r#""00000000000000000000000000042""#)), Some(42));
}

#[test]
fn counts_written_with_a_sign() {
    assert_eq!(coerce_count(&json(r#""+5""#)), Some(5));
    assert_eq!(coerce_count(&json(r#""+0""#)), Some(0));
    assert_eq!(coerce_count(&json(r#""+18446744073709551615""#)), Some(u64::MAX));
    for token in [r#""+""#, r#""++5""#, r#""+-5""#, r#""5+""#, r#""+ 5""#, r#""-0""#, r#""+18446744073709551616""#] {
        assert_eq!(coerce_count(&json(token)), None, "token {}", token);
    }
}

#[test]
fn counts_are_read_back_from_their_numerals() {
    for n in [0u64, 9, 10, 99, 100, 12345, u64::MAX - 1, u64::MAX] {
        let numeral = es_base_tools::text::decimal_string(n);
        assert_eq!(coerce_count(&serde_json::Value::String(numeral)), Some(n));
    }
}

#[test]
fn digits_outside_ascii_are_no_count() {
    for token in [r#""٣""#, r#""１２""#, r#""1٢""#, r#""1_000""#, r#""1e3""#, r#""0x10""#, r#""12 ""#] {
        assert_eq!(coerce_count(&json(token)), None, "token {}", token);
    }
}

#[test]
fn counts_written_as_numbers() {
    assert_eq!(coerce_count(&json("12")), Some(12));
    assert_eq!(coerce_count(&json("0")), Some(0));
    assert_eq!(coerce_count(&json("18446744073709551615")), Some(u64::MAX));
}

#[test]
fn absent_counts_are_absent() {
    assert_eq!(coerce_count(&json("null")), None);
    assert_eq!(coerce_count(&json(r#""""#)), None);
}

#[test]
fn what_is_no_count_is_absent() {
    for token in [
        r#""-""#,
        r#""abc""#,
        r#""12kb""#,
        r#"" 12""#,
        r#""-3""#,
        r#""1.5""#,
        r#""18446744073709551616""#,
        "-3",
        "1.5",
        "true",
        "[]",
        "[12]",
        "{}",
    ] {
        assert_eq!(coerce_count(&json(token)), None, "token {}", token);
    }
}

#[test]
fn rejected_readings_count_as_absent() {
    assert_eq!(count_or_absent(Ok(Some(5))), Some(5));
    assert_eq!(count_or_absent(Ok(None)), None);
    let error = serde_json::from_str::<u64>("x").unwrap_err();
    assert_eq!(count_or_absent(Err(error)), None);
}

#[test]
fn shard_numbers() {
    assert_eq!(coerce_shard(&json(r#""3""#)), Some(3));
    assert_eq!(coerce_shard(&json("0")), Some(0));
    assert_eq!(coerce_shard(&json(r#""p""#)), None);
    assert_eq!(coerce_shard(&json("null")), None);
}

#[test]
fn index_row_from_a_response_row() {
    assert_eq!(
        CatIndexResponse::from_raw("logs".to_string(), "open".to_string(), &json(r#""1200""#)),
        CatIndexResponse { index: "logs".to_string(), status: "open".to_string(), doc_count: Some(1200) }
    );
    assert_eq!(
        CatIndexResponse::from_raw("old".to_string(), "close".to_string(), &json("null")),
        CatIndexResponse { index: "old".to_string(), status: "close".to_string(), doc_count: None }
    );
}

#[test]
fn shard_row_from_a_response_row() {
    assert_eq!(
        CatShardsResponse::from_raw(
            "logs".to_string(),
            &json(r#""2""#),
            "p".to_string(),
            "STARTED".to_string(),
            &json(r#""15""#),
            Some("4.2kb".to_string()),
            Some("node-1".to_string()),
        ),
        CatShardsResponse {
            index: "logs".to_string(),
            shard: Some(2),
            prirep: "p".to_string(),
            state: "STARTED".to_string(),
            docs: Some(15),
            store: Some("4.2kb".to_string()),
            node: Some("node-1".to_string()),
        }
    );
    assert_eq!(
        CatShardsResponse::from_raw(
            "logs".to_string(),
            &json("1"),
            "r".to_string(),
            "UNASSIGNED".to_string(),
            &json("null"),
            None,
            None,
        ),
        CatShardsResponse {
            index: "logs".to_string(),
            shard: Some(1),
            prirep: "r".to_string(),
            state: "UNASSIGNED".to_string(),
            docs: None,
            store: None,
            node: None,
        }
    );
}

#[test]
fn index_listing_blocks() {
    let row = |name: &str, count| CatIndexResponse {
        index: name.to_string(),
        status: "open".to_string(),
        doc_count: count,
    };
    assert_eq!(
        index_list_blocks(vec![row("a", Some(1)), row("b", None)]),
        vec![text("Found 2 indices:"), OutputBlock::Indices(vec![row("a", Some(1)), row("b", None)])]
    );
    assert_eq!(
        index_list_blocks(Vec::new()),
        vec![text("Found 0 indices:"), OutputBlock::Indices(Vec::new())]
    );
}

#[test]
fn shard_listing_blocks() {
    let row = || CatShardsResponse {
        index: "logs".to_string(),
        shard: Some(0),
        prirep: "p".to_string(),
        state: "STARTED".to_string(),
        docs: Some(3),
        store: None,
        node: Some("n".to_string()),
    };
    let rows: Vec<CatShardsResponse> = (0..11).map(|_| row()).collect();
    let expected: Vec<CatShardsResponse> = (0..11).map(|_| row()).collect();
    assert_eq!(shard_list_blocks(rows), vec![text("Found 11 shards:"), OutputBlock::Shards(expected)]);
}

#[test]
fn health_of_the_cluster_alone() {
    assert_eq!(
        health_blocks(json(r#"{"status":"green"}"#), None),
        vec![text("Cluster Health:"), OutputBlock::Document(json(r#"{"status":"green"}"#))]
    );
}

#[test]
fn health_of_the_cluster_and_an_index() {
    let rows = vec![json(r#"{"index":"logs","health":"yellow"}"#)];
    assert_eq!(
        health_blocks(json(r#"{"status":"green"}"#), Some(("logs".to_string(), rows.clone()))),
        vec![
            text("Cluster Health:"),
            OutputBlock::Document(json(r#"{"status":"green"}"#)),
            text("Index Health for 'logs':"),
            OutputBlock::Documents(rows),
        ]
    );
}
