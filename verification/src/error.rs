//! The ways a tool call can fail. Every failure ends the call: nothing is
//! retried and no partial result is returned.

use vstd::prelude::*;

verus! {

/// A failed tool call.
#[derive(Debug, PartialEq)]
pub enum ToolError {
    /// A parameter was malformed; the message names what is accepted.
    InvalidParameter(String),
    /// The cluster call failed; the message is the cluster's own.
    UpstreamFailure(String),
    /// The response did not have the expected structure.
    ResponseShapeMismatch(String),
    /// Row `row` of a tabular response holds `width` values, which is not
    /// the number of columns, `columns`, that the response declares: the
    /// row is too short or too long.
    OutOfRange { row: usize, width: usize, columns: usize },
}

/// The mathematical content of a [`ToolError`].
pub enum ErrorModel {
    InvalidParameter(Seq<char>),
    UpstreamFailure(Seq<char>),
    ResponseShapeMismatch(Seq<char>),
    OutOfRange { row: nat, width: nat, columns: nat },
}

impl View for ToolError {
    type V = ErrorModel;

    open spec fn view(&self) -> ErrorModel {
        match self {
            ToolError::InvalidParameter(m) => ErrorModel::InvalidParameter(m@),
            ToolError::UpstreamFailure(m) => ErrorModel::UpstreamFailure(m@),
            ToolError::ResponseShapeMismatch(m) => ErrorModel::ResponseShapeMismatch(m@),
            ToolError::OutOfRange { row, width, columns } => ErrorModel::OutOfRange {
                row: *row as nat,
                width: *width as nat,
                columns: *columns as nat,
            },
        }
    }
}

/// The text reported for a row of `width` values under `columns` columns:
/// it says whether the row is the shorter or the longer of the two.
pub open spec fn out_of_range_text(width: nat, columns: nat) -> Seq<char> {
    if width < columns {
        "Tabular row is shorter than the column list"@
    } else {
        "Tabular row is longer than the column list"@
    }
}

/// The text that a caller is shown for an error.
pub open spec fn message_text(e: ErrorModel) -> Seq<char> {
    match e {
        ErrorModel::InvalidParameter(m) => m,
        ErrorModel::UpstreamFailure(m) => m,
        ErrorModel::ResponseShapeMismatch(m) => m,
        ErrorModel::OutOfRange { width, columns, .. } => out_of_range_text(width, columns),
    }
}

impl ToolError {
    /// The text to show the caller.
    pub fn message(&self) -> (s: String)
        ensures
            s@ == message_text(self@),
    {
        match self {
            ToolError::InvalidParameter(m) => m.clone(),
            ToolError::UpstreamFailure(m) => m.clone(),
            ToolError::ResponseShapeMismatch(m) => m.clone(),
            ToolError::OutOfRange { width, columns, .. } => if *width < *columns {
                "Tabular row is shorter than the column list".to_owned()
            } else {
                "Tabular row is longer than the column list".to_owned()
            },
        }
    }
}

} // verus!
