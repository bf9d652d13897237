//! The static user-defined-function registry.
//!
//! The executable plan holds a user-defined function by name; the snapshot
//! plan holds it as a closed enumerated kind. The registry is the single
//! bidirectional source of truth: name to kind at serialize time, kind back
//! to the full descriptor at materialize time.

use vstd::prelude::*;

verus! {

/// Closed set of scalar user-defined functions known to the registry.
#[derive(Clone, Copy, PartialEq, Eq, Structural, Debug)]
pub enum CubeScalarUDFKind {
    HllCardinality,
    Coalesce,
    Now,
    UnixTimestamp,
}

/// Closed set of aggregate user-defined functions known to the registry.
#[derive(Clone, Copy, PartialEq, Eq, Structural, Debug)]
pub enum CubeAggregateUDFKind {
    MergeHll,
}

/// Descriptor of a scalar user-defined function, as the executable plan
/// carries it.
#[derive(Clone, Debug)]
pub struct ScalarUDF {
    pub name: String,
}

/// Mathematical value of a [`ScalarUDF`].
pub struct ScalarUDFV {
    pub name: Seq<char>,
}

impl View for ScalarUDF {
    type V = ScalarUDFV;

    open spec fn view(&self) -> ScalarUDFV {
        ScalarUDFV { name: self.name@ }
    }
}

/// Descriptor of an aggregate user-defined function, as the executable plan
/// carries it.
#[derive(Clone, Debug)]
pub struct AggregateUDF {
    pub name: String,
}

/// Mathematical value of an [`AggregateUDF`].
pub struct AggregateUDFV {
    pub name: Seq<char>,
}

impl View for AggregateUDF {
    type V = AggregateUDFV;

    open spec fn view(&self) -> AggregateUDFV {
        AggregateUDFV { name: self.name@ }
    }
}

/// The registered name of a scalar function kind.
pub open spec fn scalar_udf_name(k: CubeScalarUDFKind) -> Seq<char> {
    match k {
        CubeScalarUDFKind::HllCardinality => "CARDINALITY"@,
        CubeScalarUDFKind::Coalesce => "COALESCE"@,
        CubeScalarUDFKind::Now => "NOW"@,
        CubeScalarUDFKind::UnixTimestamp => "UNIX_TIMESTAMP"@,
    }
}

/// The registered name of an aggregate function kind.
pub open spec fn aggregate_udf_name(k: CubeAggregateUDFKind) -> Seq<char> {
    match k {
        CubeAggregateUDFKind::MergeHll => "MERGE"@,
    }
}

/// Name-to-kind direction of the scalar registry.
pub open spec fn spec_scalar_kind_by_name(n: Seq<char>) -> Option<CubeScalarUDFKind> {
    if n == scalar_udf_name(CubeScalarUDFKind::HllCardinality) {
        Option::Some(CubeScalarUDFKind::HllCardinality)
    } else if n == scalar_udf_name(CubeScalarUDFKind::Coalesce) {
        Option::Some(CubeScalarUDFKind::Coalesce)
    } else if n == scalar_udf_name(CubeScalarUDFKind::Now) {
        Option::Some(CubeScalarUDFKind::Now)
    } else if n == scalar_udf_name(CubeScalarUDFKind::UnixTimestamp) {
        Option::Some(CubeScalarUDFKind::UnixTimestamp)
    } else {
        Option::None
    }
}

/// Name-to-kind direction of the aggregate registry.
pub open spec fn spec_aggregate_kind_by_name(n: Seq<char>) -> Option<CubeAggregateUDFKind> {
    if n == aggregate_udf_name(CubeAggregateUDFKind::MergeHll) {
        Option::Some(CubeAggregateUDFKind::MergeHll)
    } else {
        Option::None
    }
}

/// Exact string comparison.
fn str_eq(a: &str, b: &str) -> (r: bool)
    ensures
        r == (a@ == b@),
{
    let x = a.to_owned();
    let y = b.to_owned();
    x == y
}

/// Looks a scalar function kind up by its registered name.
pub fn scalar_kind_by_name(name: &str) -> (r: Option<CubeScalarUDFKind>)
    ensures
        r == spec_scalar_kind_by_name(name@),
{
    if str_eq(name, "CARDINALITY") {
        Option::Some(CubeScalarUDFKind::HllCardinality)
    } else if str_eq(name, "COALESCE") {
        Option::Some(CubeScalarUDFKind::Coalesce)
    } else if str_eq(name, "NOW") {
        Option::Some(CubeScalarUDFKind::Now)
    } else if str_eq(name, "UNIX_TIMESTAMP") {
        Option::Some(CubeScalarUDFKind::UnixTimestamp)
    } else {
        Option::None
    }
}

/// Looks an aggregate function kind up by its registered name.
pub fn aggregate_kind_by_name(name: &str) -> (r: Option<CubeAggregateUDFKind>)
    ensures
        r == spec_aggregate_kind_by_name(name@),
{
    if str_eq(name, "MERGE") {
        Option::Some(CubeAggregateUDFKind::MergeHll)
    } else {
        Option::None
    }
}

/// Rebuilds the full descriptor of a scalar function kind.
pub fn scalar_udf_by_kind(k: CubeScalarUDFKind) -> (r: ScalarUDF)
    ensures
        r@.name == scalar_udf_name(k),
{
    match k {
        CubeScalarUDFKind::HllCardinality => ScalarUDF { name: String::from_str("CARDINALITY") },
        CubeScalarUDFKind::Coalesce => ScalarUDF { name: String::from_str("COALESCE") },
        CubeScalarUDFKind::Now => ScalarUDF { name: String::from_str("NOW") },
        CubeScalarUDFKind::UnixTimestamp => ScalarUDF { name: String::from_str("UNIX_TIMESTAMP") },
    }
}

/// Rebuilds the full descriptor of an aggregate function kind.
pub fn aggregate_udf_by_kind(k: CubeAggregateUDFKind) -> (r: AggregateUDF)
    ensures
        r@.name == aggregate_udf_name(k),
{
    match k {
        CubeAggregateUDFKind::MergeHll => AggregateUDF { name: String::from_str("MERGE") },
    }
}

/// Law: the scalar registry is bidirectional. Looking a kind's registered
/// name back up yields that same kind, so a serialized call to any kind in
/// the registry materializes to a call with the original name.
pub proof fn lemma_scalar_registry_round_trip(k: CubeScalarUDFKind)
    ensures
        spec_scalar_kind_by_name(scalar_udf_name(k)) == Option::Some(k),
{
    reveal_strlit("CARDINALITY");
    reveal_strlit("COALESCE");
    reveal_strlit("NOW");
    reveal_strlit("UNIX_TIMESTAMP");
    assert("CARDINALITY"@.len() == 11);
    assert("COALESCE"@.len() == 8);
    assert("NOW"@.len() == 3);
    assert("UNIX_TIMESTAMP"@.len() == 14);
}

/// Law: the aggregate registry is bidirectional, as
/// [`lemma_scalar_registry_round_trip`] states for the scalar registry.
pub proof fn lemma_aggregate_registry_round_trip(k: CubeAggregateUDFKind)
    ensures
        spec_aggregate_kind_by_name(aggregate_udf_name(k)) == Option::Some(k),
{
}

/// Law: a name resolves to a kind only if it is exactly that kind's
/// registered name.
pub proof fn lemma_scalar_name_determined(n: Seq<char>, k: CubeScalarUDFKind)
    requires
        spec_scalar_kind_by_name(n) == Option::Some(k),
    ensures
        n == scalar_udf_name(k),
{
}

/// Law: as [`lemma_scalar_name_determined`], for the aggregate registry.
pub proof fn lemma_aggregate_name_determined(n: Seq<char>, k: CubeAggregateUDFKind)
    requires
        spec_aggregate_kind_by_name(n) == Option::Some(k),
    ensures
        n == aggregate_udf_name(k),
{
}

} // verus!
