use es_base_tools::blocks::OutputBlock;
use es_base_tools::error::ToolError;
use es_base_tools::tabular::{reshape, tabular_blocks, Column, EsqlQueryResponse};
use serde_json::Value;

fn json(text: &str) -> Value {
    serde_json::from_str(text).unwrap()
}

fn columns(names: &[&str]) -> Vec<Column> {
    names.iter().map(|n| Column { name: n.to_string(), type_: "keyword".to_string() }).collect()
}

fn rows(text: &str) -> Vec<Vec<Value>> {
    serde_json::from_str(text).unwrap()
}

#[test]
fn rows_become_objects() {
    assert_eq!(
        reshape(&columns(&["a", "b"]), &rows("[[1,2],[3,4]]")),
        Ok(vec![json(r#"{"a":1,"b":2}"#), json(r#"{"a":3,"b":4}"#)])
    );
}

#[test]
fn short_row_is_out_of_range() {
    assert_eq!(
        reshape(&columns(&["a", "b"]), &rows("[[1]]")),
        Err(ToolError::OutOfRange { row: 0, width: 1, columns: 2 })
    );
}

#[test]
fn first_short_row_is_reported() {
    assert_eq!(
        reshape(&columns(&["a", "b", "c"]), &rows("[[1,2,3],[4,5,6],[7,8],[],[9,9,9]]")),
        Err(ToolError::OutOfRange { row: 2, width: 2, columns: 3 })
    );
}

#[test]
fn row_order_is_kept() {
    assert_eq!(
        reshape(&columns(&["n"]), &rows("[[3],[1],[2],[1]]")),
        Ok(vec![json(r#"{"n":3}"#), json(r#"{"n":1}"#), json(r#"{"n":2}"#), json(r#"{"n":1}"#)])
    );
}

#[test]
fn values_of_any_kind_are_kept() {
    assert_eq!(
        reshape(&columns(&["a", "b", "c"]), &rows(r#"[[null,[1,"x"],{"k":1.5}]]"#)),
        Ok(vec![json(r#"{"a":null,"b":[1,"x"],"c":{"k":1.5}}"#)])
    );
}

#[test]
fn long_row_is_out_of_range() {
    let error = reshape(&columns(&["a"]), &rows("[[1,2,3]]")).unwrap_err();
    assert_eq!(error, ToolError::OutOfRange { row: 0, width: 3, columns: 1 });
    assert_eq!(error.message(), "Tabular row is longer than the column list");
}

#[test]
fn first_row_of_another_length_is_reported() {
    assert_eq!(
        reshape(&columns(&["a", "b"]), &rows("[[1,2],[1,2,3],[1]]")),
        Err(ToolError::OutOfRange { row: 1, width: 3, columns: 2 })
    );
    assert_eq!(
        reshape(&columns(&["a", "b"]), &rows("[[1,2],[1],[1,2,3]]")),
        Err(ToolError::OutOfRange { row: 1, width: 1, columns: 2 })
    );
}

#[test]
fn no_value_is_dropped_or_filled_in() {
    for table in ["[[1,2,3],[4,5]]", "[[1,2],[4]]", "[[1,2],[3,4],[5,6,7]]", "[[]]"] {
        assert!(reshape(&columns(&["a", "b"]), &rows(table)).is_err(), "rows {}", table);
    }
}

#[test]
fn later_column_of_the_same_name_stands() {
    assert_eq!(
        reshape(&columns(&["a", "b", "a"]), &rows("[[1,2,3]]")),
        Ok(vec![json(r#"{"a":3,"b":2}"#)])
    );
}

#[test]
fn no_rows_and_no_columns() {
    assert_eq!(reshape(&columns(&["a"]), &rows("[]")), Ok(Vec::new()));
    assert_eq!(reshape(&columns(&[]), &rows("[]")), Ok(Vec::new()));
    assert_eq!(reshape(&columns(&[]), &rows("[[],[]]")), Ok(vec![json("{}"), json("{}")]));
    assert_eq!(
        reshape(&columns(&[]), &rows("[[],[1]]")),
        Err(ToolError::OutOfRange { row: 1, width: 1, columns: 0 })
    );
}

#[test]
fn tabular_blocks_have_a_heading() {
    let response = EsqlQueryResponse {
        is_partial: Some(false),
        columns: columns(&["a", "b"]),
        values: rows("[[1,2],[3,4]]"),
    };
    assert_eq!(
        tabular_blocks(&response),
        Ok(vec![
            OutputBlock::Text("Results".to_string()),
            OutputBlock::Documents(vec![json(r#"{"a":1,"b":2}"#), json(r#"{"a":3,"b":4}"#)]),
        ])
    );
}

#[test]
fn tabular_blocks_fail_on_a_long_row() {
    let response = EsqlQueryResponse {
        is_partial: None,
        columns: columns(&["a", "b"]),
        values: rows("[[1,2],[3,4,5]]"),
    };
    let error = tabular_blocks(&response).unwrap_err();
    assert_eq!(error, ToolError::OutOfRange { row: 1, width: 3, columns: 2 });
    assert_eq!(error.message(), "Tabular row is longer than the column list");
}

#[test]
fn tabular_blocks_fail_on_a_short_row() {
    let response = EsqlQueryResponse {
        is_partial: None,
        columns: columns(&["a", "b"]),
        values: rows("[[1,2],[3]]"),
    };
    let error = tabular_blocks(&response).unwrap_err();
    assert_eq!(error, ToolError::OutOfRange { row: 1, width: 1, columns: 2 });
    assert_eq!(error.message(), "Tabular row is shorter than the column list");
}
