//! Metric aggregations.
//!
//! An aggregation is chosen by name, without regard to the case of ASCII
//! letters, from a fixed list. A name that is not on the list selects the
//! average: this is a default, not an error.

use crate::json::{
    integer, json_array, json_unsigned, models, object1, object2, single_member, text_value,
    two_members, value_model, JsonModel,
};
use crate::text::{characters, equals_ignoring_case, fold_code, same_ignoring_case};
use serde_json::Value;
use vstd::prelude::*;

verus! {

/// The aggregations that can be asked for.
#[derive(Clone, Copy, Debug, PartialEq, Eq, Structural)]
pub enum AggregationKind {
    Avg,
    Sum,
    Min,
    Max,
    Percentiles,
    Cardinality,
    Stats,
    ExtendedStats,
}

/// The name of an aggregation, which is also the key of its clause.
pub open spec fn kind_name(kind: AggregationKind) -> Seq<char> {
    match kind {
        AggregationKind::Avg => "avg"@,
        AggregationKind::Sum => "sum"@,
        AggregationKind::Min => "min"@,
        AggregationKind::Max => "max"@,
        AggregationKind::Percentiles => "percentiles"@,
        AggregationKind::Cardinality => "cardinality"@,
        AggregationKind::Stats => "stats"@,
        AggregationKind::ExtendedStats => "extended_stats"@,
    }
}

/// Whether `name` is the name of `kind`, up to the case of ASCII letters.
pub open spec fn names(name: Seq<char>, kind: AggregationKind) -> bool {
    same_ignoring_case(name, kind_name(kind))
}

/// The aggregation that `name` selects.
pub open spec fn kind_of(name: Seq<char>) -> AggregationKind {
    if names(name, AggregationKind::Avg) {
        AggregationKind::Avg
    } else if names(name, AggregationKind::Sum) {
        AggregationKind::Sum
    } else if names(name, AggregationKind::Min) {
        AggregationKind::Min
    } else if names(name, AggregationKind::Max) {
        AggregationKind::Max
    } else if names(name, AggregationKind::Percentiles) {
        AggregationKind::Percentiles
    } else if names(name, AggregationKind::Cardinality) {
        AggregationKind::Cardinality
    } else if names(name, AggregationKind::Stats) {
        AggregationKind::Stats
    } else if names(name, AggregationKind::ExtendedStats) {
        AggregationKind::ExtendedStats
    } else {
        AggregationKind::Avg
    }
}

/// Whether `name` is on the list of aggregation names.
pub open spec fn is_known(name: Seq<char>) -> bool {
    exists|kind: AggregationKind| names(name, kind)
}

/// The percentiles that a percentile aggregation asks for.
pub open spec fn percentile_ranks() -> Seq<JsonModel> {
    seq![integer(25), integer(50), integer(75), integer(90), integer(95), integer(99)]
}

/// The clause `{ <name>: { "field": <field> } }` of an aggregation; the
/// percentile clause also lists the percentiles.
pub open spec fn clause(kind: AggregationKind, field: Seq<char>) -> JsonModel {
    match kind {
        AggregationKind::Percentiles => object1(
            kind_name(kind),
            object2(
                "field"@,
                JsonModel::Str(field),
                "percents"@,
                JsonModel::Array(percentile_ranks()),
            ),
        ),
        _ => object1(kind_name(kind), object1("field"@, JsonModel::Str(field))),
    }
}

/// The clause that an aggregation name and a field stand for.
pub open spec fn metric_aggregation(name: Seq<char>, field: Seq<char>) -> JsonModel {
    clause(kind_of(name), field)
}

impl AggregationKind {
    /// Selects the aggregation named `name`; the average if the name is not
    /// known.
    pub fn from_name(name: &str) -> (kind: AggregationKind)
        ensures
            kind == kind_of(name@),
    {
        let chars = characters(name);
        if equals_ignoring_case(&chars, "avg") {
            AggregationKind::Avg
        } else if equals_ignoring_case(&chars, "sum") {
            AggregationKind::Sum
        } else if equals_ignoring_case(&chars, "min") {
            AggregationKind::Min
        } else if equals_ignoring_case(&chars, "max") {
            AggregationKind::Max
        } else if equals_ignoring_case(&chars, "percentiles") {
            AggregationKind::Percentiles
        } else if equals_ignoring_case(&chars, "cardinality") {
            AggregationKind::Cardinality
        } else if equals_ignoring_case(&chars, "stats") {
            AggregationKind::Stats
        } else if equals_ignoring_case(&chars, "extended_stats") {
            AggregationKind::ExtendedStats
        } else {
            AggregationKind::Avg
        }
    }

    /// The name of the aggregation.
    pub fn name(self) -> (s: &'static str)
        ensures
            s@ == kind_name(self),
    {
        match self {
            AggregationKind::Avg => "avg",
            AggregationKind::Sum => "sum",
            AggregationKind::Min => "min",
            AggregationKind::Max => "max",
            AggregationKind::Percentiles => "percentiles",
            AggregationKind::Cardinality => "cardinality",
            AggregationKind::Stats => "stats",
            AggregationKind::ExtendedStats => "extended_stats",
        }
    }

    /// Builds the clause of this aggregation over `field`.
    pub fn clause(self, field: &str) -> (v: Value)
        ensures
            value_model(v) == clause(self, field@),
    {
        match self {
            AggregationKind::Percentiles => {
                let mut ranks: Vec<Value> = Vec::new();
                ranks.push(json_unsigned(25));
                ranks.push(json_unsigned(50));
                ranks.push(json_unsigned(75));
                ranks.push(json_unsigned(90));
                ranks.push(json_unsigned(95));
                ranks.push(json_unsigned(99));
                assert(models(ranks@) =~= percentile_ranks());
                single_member(
                    self.name(),
                    two_members("field", text_value(field), "percents", json_array(ranks)),
                )
            },
            _ => single_member(self.name(), single_member("field", text_value(field))),
        }
    }
}

/// Builds the aggregation clause for an aggregation name and a field.
pub fn build_metric_aggregation(aggregation_type: &str, field: &str) -> (v: Value)
    ensures
        value_model(v) == metric_aggregation(aggregation_type@, field@),
{
    AggregationKind::from_name(aggregation_type).clause(field)
}

/// Each of the eight names selects its own aggregation.
pub proof fn lemma_names_select_their_kinds(kind: AggregationKind)
    ensures
        kind_of(kind_name(kind)) == kind,
        is_known(kind_name(kind)),
{
    reveal_strlit("avg");
    reveal_strlit("sum");
    reveal_strlit("min");
    reveal_strlit("max");
    reveal_strlit("percentiles");
    reveal_strlit("cardinality");
    reveal_strlit("stats");
    reveal_strlit("extended_stats");
    assert(fold_code("sum"@[0]) != fold_code("max"@[0]));
    assert(fold_code("min"@[1]) != fold_code("max"@[1]));
    assert(fold_code("percentiles"@[0]) != fold_code("cardinality"@[0]));
}

/// The object under the only key of a clause.
pub open spec fn clause_body(kind: AggregationKind, field: Seq<char>) -> Map<Seq<char>, JsonModel> {
    match clause(kind, field) {
        JsonModel::Object(outer) => match outer[kind_name(kind)] {
            JsonModel::Object(inner) => inner,
            _ => Map::empty(),
        },
        _ => Map::empty(),
    }
}

/// A clause has one member, under the name of its aggregation. That
/// member names the field; for percentiles it lists the ranks as well.
pub proof fn lemma_clause_members(kind: AggregationKind, field: Seq<char>)
    ensures
        clause(kind, field) == object1(kind_name(kind), JsonModel::Object(clause_body(kind, field))),
        clause_body(kind, field)["field"@] == JsonModel::Str(field),
        kind == AggregationKind::Percentiles ==> clause_body(kind, field).dom() =~= set![
            "field"@,
            "percents"@,
        ],
        kind == AggregationKind::Percentiles ==> clause_body(kind, field)["percents"@]
            == JsonModel::Array(percentile_ranks()),
        kind != AggregationKind::Percentiles ==> clause_body(kind, field).dom() =~= set!["field"@],
{
    reveal_strlit("field");
    reveal_strlit("percents");
    assert("field"@.len() != "percents"@.len());
}

/// Names that differ only in the case of ASCII letters stand for the same
/// clause.
pub proof fn lemma_case_is_ignored(a: Seq<char>, b: Seq<char>, field: Seq<char>)
    requires
        same_ignoring_case(a, b),
    ensures
        metric_aggregation(a, field) == metric_aggregation(b, field),
{
    assert forall|kind: AggregationKind| names(a, kind) == names(b, kind) by {}
}

/// A name that is not on the list stands for the clause of the average.
pub proof fn lemma_unknown_is_average(name: Seq<char>, field: Seq<char>)
    requires
        !is_known(name),
    ensures
        metric_aggregation(name, field) == metric_aggregation("avg"@, field),
{
}

} // verus!
