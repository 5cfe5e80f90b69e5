//! Tabular responses of the columnar query language.
//!
//! A response names its columns and gives its rows as lists of values
//! that line up with the columns. Reshaping turns every row into an object
//! keyed by column name. Rows keep their order. Every row must hold
//! exactly one value for each column: a row that is shorter or longer than
//! the column list is an error that ends the call, and no value is ever
//! filled in or left out. Of two columns with one name the later one
//! stands.

use crate::blocks::{block_models, push_block, BlockModel, OutputBlock};
use crate::error::{ErrorModel, ToolError};
use crate::json::{
    json_object, models, new_object, no_members, object_insert, object_model, value_model,
    JsonModel,
};
use serde_json::Value;
use vstd::prelude::*;

verus! {

/// The request body of a query in the columnar query language.
#[derive(Debug, PartialEq)]
pub struct EsqlQueryRequest {
    pub query: String,
}

/// A column of a tabular response.
#[derive(Debug, PartialEq)]
pub struct Column {
    pub name: String,
    pub type_: String,
}

/// A tabular response.
#[derive(Debug, PartialEq)]
pub struct EsqlQueryResponse {
    pub is_partial: Option<bool>,
    pub columns: Vec<Column>,
    pub values: Vec<Vec<Value>>,
}

/// The names of a list of columns, in order.
pub open spec fn column_names(columns: Seq<Column>) -> Seq<Seq<char>> {
    columns.map_values(|column: Column| column.name@)
}

/// The members that the first `n` columns give to a row.
pub open spec fn row_members(names: Seq<Seq<char>>, row: Seq<JsonModel>, n: nat) -> Map<
    Seq<char>,
    JsonModel,
>
    decreases n,
{
    if n == 0 {
        no_members()
    } else {
        row_members(names, row, (n - 1) as nat).insert(names[n - 1], row[n - 1])
    }
}

/// The object that a row becomes.
pub open spec fn row_object(names: Seq<Seq<char>>, row: Seq<JsonModel>) -> JsonModel {
    JsonModel::Object(row_members(names, row, names.len()))
}

/// Whether row `i` is the first row whose length is not the number of
/// columns.
pub open spec fn first_misfit(width: nat, rows: Seq<Vec<Value>>, i: int) -> bool {
    &&& 0 <= i < rows.len()
    &&& rows[i]@.len() != width
    &&& forall|j: int| 0 <= j < i ==> (#[trigger] rows[j])@.len() == width
}

/// Whether every row holds exactly one value for each column.
pub open spec fn rows_fit(width: nat, rows: Seq<Vec<Value>>) -> bool {
    forall|j: int| 0 <= j < rows.len() ==> (#[trigger] rows[j])@.len() == width
}

/// The objects that the rows become, in order.
pub open spec fn row_objects(columns: Seq<Column>, rows: Seq<Vec<Value>>) -> Seq<JsonModel> {
    rows.map_values(|row: Vec<Value>| row_object(column_names(columns), models(row@)))
}

/// Whether `outcome` is what reshaping `rows` under `columns` gives: the
/// objects of all rows if every row fits; else `OutOfRange` for the first
/// row that is shorter or longer than the column list, with the index of
/// that row, its length and the number of columns.
pub open spec fn reshapes_to(
    columns: Seq<Column>,
    rows: Seq<Vec<Value>>,
    outcome: Result<Seq<JsonModel>, ErrorModel>,
) -> bool {
    match outcome {
        Ok(objects) => rows_fit(columns.len(), rows) && objects == row_objects(columns, rows),
        Err(e) => e matches ErrorModel::OutOfRange { row, width, columns: wanted }
            && first_misfit(columns.len(), rows, row as int) && width == rows[row as int]@.len()
            && wanted == columns.len(),
    }
}

/// Turns one row into an object keyed by column name.
fn reshape_row(columns: &Vec<Column>, row: &Vec<Value>) -> (object: Value)
    requires
        row@.len() == columns@.len(),
    ensures
        value_model(object) == row_object(column_names(columns@), models(row@)),
{
    let mut members = new_object();
    let mut j: usize = 0;
    while j < columns.len()
        invariant
            j <= columns@.len() == row@.len(),
            object_model(members) == row_members(
                column_names(columns@),
                models(row@),
                j as nat,
            ),
        decreases columns.len() - j,
    {
        object_insert(&mut members, columns[j].name.clone(), row[j].clone());
        j = j + 1;
    }
    json_object(members)
}

/// Turns the rows of a tabular response into one object per row.
///
/// Fails with `OutOfRange` exactly when a row does not hold one value for
/// each column, be it shorter or longer than the column list; the error
/// names the first such row.
pub fn reshape(columns: &Vec<Column>, rows: &Vec<Vec<Value>>) -> (r: Result<Vec<Value>, ToolError>)
    ensures
        match r {
            Ok(objects) => reshapes_to(columns@, rows@, Ok(models(objects@))),
            Err(e) => reshapes_to(columns@, rows@, Err(e@)),
        },
{
    let mut objects: Vec<Value> = Vec::new();
    let mut i: usize = 0;
    while i < rows.len()
        invariant
            i <= rows@.len(),
            rows_fit(columns@.len(), rows@.take(i as int)),
            models(objects@) == row_objects(columns@, rows@.take(i as int)),
        decreases rows.len() - i,
    {
        let row = &rows[i];
        if row.len() != columns.len() {
            proof {
                assert forall|j: int| 0 <= j < i implies (#[trigger] rows@[j])@.len()
                    == columns@.len() by {
                    assert(rows@.take(i as int)[j] == rows@[j]);
                }
            }
            return Err(
                ToolError::OutOfRange { row: i, width: row.len(), columns: columns.len() },
            );
        }
        objects.push(reshape_row(columns, row));
        assert(row_objects(columns@, rows@.take(i + 1)) =~= row_objects(
            columns@,
            rows@.take(i as int),
        ).push(row_object(column_names(columns@), models(rows@[i as int]@))));
        i = i + 1;
    }
    assert(rows@.take(rows@.len() as int) =~= rows@);
    Ok(objects)
}

/// The blocks of a tabular response: a heading, then the rows as objects.
///
/// Fails as `reshape` does: with `OutOfRange` exactly when a row is
/// shorter or longer than the column list.
pub fn tabular_blocks(response: &EsqlQueryResponse) -> (r: Result<Vec<OutputBlock>, ToolError>)
    ensures
        match r {
            Ok(blocks) => rows_fit(response.columns@.len(), response.values@) && block_models(
                blocks@,
            ) == seq![
                BlockModel::Text("Results"@),
                BlockModel::Documents(row_objects(response.columns@, response.values@)),
            ],
            Err(e) => reshapes_to(response.columns@, response.values@, Err(e@)),
        },
{
    match reshape(&response.columns, &response.values) {
        Ok(objects) => {
            let mut blocks: Vec<OutputBlock> = Vec::new();
            push_block(&mut blocks, OutputBlock::Text("Results".to_owned()));
            push_block(&mut blocks, OutputBlock::Documents(objects));
            Ok(blocks)
        },
        Err(e) => Err(e),
    }
}

/// A response is reshaped only if every row holds exactly one value for
/// each column; then there is one object for each row.
pub proof fn lemma_success_needs_exact_rows(
    columns: Seq<Column>,
    rows: Seq<Vec<Value>>,
    objects: Seq<JsonModel>,
    i: int,
)
    requires
        reshapes_to(columns, rows, Ok(objects)),
        0 <= i < rows.len(),
    ensures
        rows[i]@.len() == columns.len(),
        objects.len() == rows.len(),
        objects[i] == row_object(column_names(columns), models(rows[i]@)),
{
}

/// A row that is shorter or longer than the column list rules out
/// success: the only outcome is `OutOfRange`, for that row or an earlier
/// one.
pub proof fn lemma_misfit_is_an_error(
    columns: Seq<Column>,
    rows: Seq<Vec<Value>>,
    outcome: Result<Seq<JsonModel>, ErrorModel>,
    i: int,
)
    requires
        reshapes_to(columns, rows, outcome),
        0 <= i < rows.len(),
        rows[i]@.len() != columns.len(),
    ensures
        outcome matches Err(ErrorModel::OutOfRange { row, width, columns: wanted }) && row <= i
            && width != wanted && wanted == columns.len(),
{
}

} // verus!
