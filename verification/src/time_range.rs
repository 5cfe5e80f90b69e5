//! Time ranges.
//!
//! A time range arrives as free text and leaves as a `(start, end)` pair of
//! timestamp expressions for a range filter. Three forms are told apart:
//!
//! * `start,end`: the two parts around the only comma, each trimmed. Both
//!   parts must be non-empty after trimming, and there must be exactly one
//!   comma; anything else with a comma in it is rejected.
//! * `now-X`: the range from `now-X` to `now`. The offset is not examined,
//!   the cluster validates it.
//! * anything else, the empty string included: the last hour. This is a
//!   default, not an error.
//!
//! The pair is not ordered: the start may follow the end.

use crate::error::{ErrorModel, ToolError};
use crate::text::{characters, is_prefix, starts_with, trimmed, trimmed_bounds};
use vstd::prelude::*;

verus! {

/// The message of the error for a malformed time range.
pub open spec fn invalid_time_range_text() -> Seq<char> {
    "Invalid time range format. Use 'start,end' or 'now-X' format"@
}

/// Whether position `i` holds the only comma of `s`.
pub open spec fn splits_at(s: Seq<char>, i: int) -> bool {
    &&& 0 <= i < s.len()
    &&& s[i] == ','
    &&& forall|j: int| 0 <= j < s.len() && j != i ==> s[j] != ','
}

/// The two trimmed parts of `s` around its only comma. `None` if `s` does
/// not hold exactly one comma, or if a part is empty once trimmed.
pub open spec fn absolute_range(s: Seq<char>) -> Option<(Seq<char>, Seq<char>)> {
    if exists|i: int| splits_at(s, i) {
        let i = choose|i: int| splits_at(s, i);
        let start = trimmed(s.subrange(0, i));
        let end = trimmed(s.subrange(i + 1, s.len() as int));
        if start.len() > 0 && end.len() > 0 {
            Some((start, end))
        } else {
            None
        }
    } else {
        None
    }
}

/// The range that a time-range text stands for; `None` if it is rejected.
pub open spec fn resolved(s: Seq<char>) -> Option<(Seq<char>, Seq<char>)> {
    if s.contains(',') {
        absolute_range(s)
    } else if is_prefix("now-"@, s) {
        Some((s, "now"@))
    } else {
        Some(("now-1h"@, "now"@))
    }
}

/// A text without a comma that does not start with `now-` stands for the
/// last hour.
pub proof fn lemma_unrecognized_is_last_hour(s: Seq<char>)
    requires
        !s.contains(','),
        !is_prefix("now-"@, s),
    ensures
        resolved(s) == Some(("now-1h"@, "now"@)),
{
}

/// A text with two commas is rejected.
pub proof fn lemma_two_commas_are_rejected(s: Seq<char>, i: int, j: int)
    requires
        0 <= i < j < s.len(),
        s[i] == ',',
        s[j] == ',',
    ensures
        resolved(s) is None,
{
}

/// A text with one comma is rejected if the part before or after the
/// comma is empty once trimmed, and stands for its trimmed parts if
/// neither is.
pub proof fn lemma_one_comma(s: Seq<char>, i: int)
    requires
        splits_at(s, i),
    ensures
        resolved(s) == if trimmed(s.subrange(0, i)).len() > 0 && trimmed(
            s.subrange(i + 1, s.len() as int),
        ).len() > 0 {
            Some((trimmed(s.subrange(0, i)), trimmed(s.subrange(i + 1, s.len() as int))))
        } else {
            None
        },
{
}

/// The index of the first comma at or after `from`, or the length of
/// `chars` if there is none.
fn next_comma(chars: &Vec<char>, from: usize) -> (i: usize)
    requires
        from <= chars.len(),
    ensures
        from <= i <= chars.len(),
        i < chars.len() ==> chars@[i as int] == ',',
        forall|j: int| from <= j < i ==> chars@[j] != ',',
{
    let mut i: usize = from;
    while i < chars.len() && chars[i] != ','
        invariant
            from <= i <= chars.len(),
            forall|j: int| from <= j < i ==> chars@[j] != ',',
        decreases chars.len() - i,
    {
        i = i + 1;
    }
    i
}

/// Resolves a time-range text into its `(start, end)` pair.
///
/// Fails with `InvalidParameter` exactly when the text holds a comma and is
/// not of the form `start,end` with two non-empty parts.
pub fn parse_time_range(time_range: &str) -> (r: Result<(String, String), ToolError>)
    ensures
        match r {
            Ok((start, end)) => resolved(time_range@) == Some((start@, end@)),
            Err(e) => resolved(time_range@) is None && e@ == ErrorModel::InvalidParameter(
                invalid_time_range_text(),
            ),
        },
        !time_range@.contains(',') && !is_prefix("now-"@, time_range@) ==> (r matches Ok((start, end))
            && start@ == "now-1h"@ && end@ == "now"@),
        !time_range@.contains(',') && is_prefix("now-"@, time_range@) ==> (r matches Ok((start, end))
            && start@ == time_range@ && end@ == "now"@),
{
    let chars = characters(time_range);
    let n = chars.len();
    let comma = next_comma(&chars, 0);
    if comma < n {
        let second = next_comma(&chars, comma + 1);
        if second < n {
            return Err(invalid_time_range());
        }
        assert(splits_at(time_range@, comma as int));
        let (a, b) = trimmed_bounds(&chars, 0, comma);
        let (c, d) = trimmed_bounds(&chars, comma + 1, n);
        if a == b || c == d {
            return Err(invalid_time_range());
        }
        let start = time_range.substring_char(a, b).to_owned();
        let end = time_range.substring_char(c, d).to_owned();
        Ok((start, end))
    } else {
        if starts_with(&chars, "now-") {
            Ok((time_range.to_owned(), "now".to_owned()))
        } else {
            Ok(("now-1h".to_owned(), "now".to_owned()))
        }
    }
}

/// The error for a malformed time range.
fn invalid_time_range() -> (e: ToolError)
    ensures
        e@ == ErrorModel::InvalidParameter(invalid_time_range_text()),
{
    ToolError::InvalidParameter(
        "Invalid time range format. Use 'start,end' or 'now-X' format".to_owned(),
    )
}

} // verus!
