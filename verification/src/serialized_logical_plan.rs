//! The snapshot form of relational plan trees, and the plan serializer and
//! materializer.
//!
//! The serializer is a recursive descent, one case per node kind, producing
//! the snapshot variant of identical shape. It fail-fasts on the
//! coordinator: node kinds with no distributed-snapshot representation,
//! extension operators other than the two known distributed kinds, table
//! sources other than the one recognized worker-table kind, and unregistered
//! user-defined function names are all fatal, and no partial snapshot is
//! ever produced. The materializer is the mirror descent, binding each table
//! scan for one worker through the scan's table-access capability.
//!
//! [`plan_corr`] is the one correspondence relation: the serializer
//! establishes it with the binding left open, the materializer with the
//! binding pinned to the worker's file mapping and partition-id set.

use vstd::prelude::*;
use std::collections::HashSet;
use std::sync::Arc;

use crate::error::CubeError;
use crate::plan::{
    ClusterAggregateTopK, ClusterSendNode, CubeTable, ExtensionNode, JoinType, LogicalPlan,
    Partitioning, PlanSchema, SortColumn, TableSource, duplicate_name_map, duplicate_opt_string,
    duplicate_projection, duplicate_sort_columns, name_map_view, opt_str_view,
};
use crate::plan::clone_id_set;
use crate::serialized_expr::{
    SerializedExpr, exprs_corr, exprs_err_witness, exprs_serializable, materialize_exprs,
    serialized_expr, serialized_exprs, expr_corr, expr_err_witness, expr_serializable,
};
use crate::snapshot::{IndexSnapshot, duplicate_snapshot_lists, snapshot_lists_view};

verus! {

/// The table source of a snapshot scan node: always the recognized
/// worker-table kind, captured as a value.
#[derive(Debug)]
pub enum SerializedTableSource {
    CubeTable(CubeTable),
}

/// Partitioning scheme of a repartition node, in snapshot form.
#[derive(Debug)]
pub enum SerializePartitioning {
    RoundRobinBatch(usize),
    Hash(Vec<SerializedExpr>, usize),
}

/// A relational operator node in snapshot form: the transferable mirror of
/// [`LogicalPlan`], with the two distributed operators as first-class
/// variants.
#[derive(Debug)]
pub enum SerializedLogicalPlan {
    Projection {
        expr: Vec<SerializedExpr>,
        input: Arc<SerializedLogicalPlan>,
        schema: Arc<PlanSchema>,
    },
    Filter { predicate: SerializedExpr, input: Arc<SerializedLogicalPlan> },
    Aggregate {
        input: Arc<SerializedLogicalPlan>,
        group_expr: Vec<SerializedExpr>,
        aggr_expr: Vec<SerializedExpr>,
        schema: Arc<PlanSchema>,
    },
    Sort { expr: Vec<SerializedExpr>, input: Arc<SerializedLogicalPlan> },
    Union {
        inputs: Vec<Arc<SerializedLogicalPlan>>,
        schema: Arc<PlanSchema>,
        alias: Option<String>,
    },
    Join {
        left: Arc<SerializedLogicalPlan>,
        right: Arc<SerializedLogicalPlan>,
        on: Vec<(String, String)>,
        join_type: JoinType,
        schema: Arc<PlanSchema>,
    },
    TableScan {
        table_name: String,
        source: SerializedTableSource,
        projection: Option<Vec<usize>>,
        projected_schema: Arc<PlanSchema>,
        filters: Vec<SerializedExpr>,
        alias: Option<String>,
        limit: Option<usize>,
    },
    EmptyRelation { produce_one_row: bool, schema: Arc<PlanSchema> },
    Limit { n: usize, input: Arc<SerializedLogicalPlan> },
    Skip { n: usize, input: Arc<SerializedLogicalPlan> },
    Repartition { input: Arc<SerializedLogicalPlan>, partitioning_scheme: SerializePartitioning },
    ClusterSend { input: Arc<SerializedLogicalPlan>, snapshots: Vec<Vec<IndexSnapshot>> },
    ClusterAggregateTopK {
        limit: usize,
        input: Arc<SerializedLogicalPlan>,
        group_expr: Vec<SerializedExpr>,
        aggregate_expr: Vec<SerializedExpr>,
        sort_columns: Vec<SortColumn>,
        schema: Arc<PlanSchema>,
        snapshots: Vec<Vec<IndexSnapshot>>,
    },
}

/// A worker binding: the remote-to-local file mapping and the partition-id
/// restriction that materialization stamps into every table scan.
pub struct Binding {
    pub names: Seq<(Seq<char>, Seq<char>)>,
    pub ids: Set<u64>,
}

/// View of an optional column-index projection.
pub open spec fn opt_proj_view(o: Option<Vec<usize>>) -> Option<Seq<usize>> {
    match o {
        Option::Some(v) => Option::Some(v@),
        Option::None => Option::None,
    }
}

/// Correspondence of a scan's executable table source and its snapshot
/// source. With the binding left open (at serialization), the snapshot
/// captures the executable table whole. With a binding given (at
/// materialization), the executable side reads the snapshot's index
/// snapshot and is bound by exactly that file mapping and partition-id set.
pub open spec fn source_corr(t: CubeTable, st: CubeTable, b: Option<Binding>) -> bool {
    match b {
        Option::None => st@ == t@,
        Option::Some(bind) => {
            &&& t@.index_snapshot == st@.index_snapshot
            &&& t@.remote_to_local_names == bind.names
            &&& t@.worker_partition_ids == bind.ids
        },
    }
}

/// Correspondence of an executable plan and a snapshot plan: identical
/// operator shape and field values, expressions corresponding by
/// [`expr_corr`], every scan source corresponding by [`source_corr`], and
/// the two distributed operators recovered from the extension slot as
/// first-class snapshot variants.
pub open spec fn plan_corr(p: LogicalPlan, s: SerializedLogicalPlan, b: Option<Binding>) -> bool
    decreases p,
{
    match p {
        LogicalPlan::Projection { expr, input, schema } => {
            &&& s matches SerializedLogicalPlan::Projection { expr: se, input: si, schema: ss }
            &&& exprs_corr(expr@, se@)
            &&& plan_corr(*input, *si, b)
            &&& (*ss)@ == (*schema)@
        },
        LogicalPlan::Filter { predicate, input } => {
            &&& s matches SerializedLogicalPlan::Filter { predicate: sp, input: si }
            &&& expr_corr(predicate, sp)
            &&& plan_corr(*input, *si, b)
        },
        LogicalPlan::Aggregate { input, group_expr, aggr_expr, schema } => {
            &&& s matches SerializedLogicalPlan::Aggregate {
                input: si,
                group_expr: sg,
                aggr_expr: sa,
                schema: ss,
            }
            &&& plan_corr(*input, *si, b)
            &&& exprs_corr(group_expr@, sg@)
            &&& exprs_corr(aggr_expr@, sa@)
            &&& (*ss)@ == (*schema)@
        },
        LogicalPlan::Sort { expr, input } => {
            &&& s matches SerializedLogicalPlan::Sort { expr: se, input: si }
            &&& exprs_corr(expr@, se@)
            &&& plan_corr(*input, *si, b)
        },
        LogicalPlan::Union { inputs, schema, alias } => {
            &&& s matches SerializedLogicalPlan::Union { inputs: si, schema: ss, alias: sal }
            &&& plans_corr(inputs@, si@, b)
            &&& (*ss)@ == (*schema)@
            &&& opt_str_view(sal) == opt_str_view(alias)
        },
        LogicalPlan::Join { left, right, on, join_type, schema } => {
            &&& s matches SerializedLogicalPlan::Join {
                left: sl,
                right: sr,
                on: son,
                join_type: sj,
                schema: ss,
            }
            &&& plan_corr(*left, *sl, b)
            &&& plan_corr(*right, *sr, b)
            &&& name_map_view(son@) == name_map_view(on@)
            &&& sj == join_type
            &&& (*ss)@ == (*schema)@
        },
        LogicalPlan::TableScan {
            table_name,
            source,
            projection,
            projected_schema,
            filters,
            alias,
            limit,
        } => {
            &&& s matches SerializedLogicalPlan::TableScan {
                table_name: stn,
                source: ssrc,
                projection: sproj,
                projected_schema: sps,
                filters: sf,
                alias: sal,
                limit: slim,
            }
            &&& stn@ == table_name@
            &&& (match source {
                TableSource::CubeTable(t) => {
                    &&& ssrc matches SerializedTableSource::CubeTable(st)
                    &&& source_corr(t, st, b)
                },
                TableSource::Other(_) => false,
            })
            &&& opt_proj_view(sproj) == opt_proj_view(projection)
            &&& (*sps)@ == (*projected_schema)@
            &&& exprs_corr(filters@, sf@)
            &&& opt_str_view(sal) == opt_str_view(alias)
            &&& slim == limit
        },
        LogicalPlan::EmptyRelation { produce_one_row, schema } => {
            &&& s matches SerializedLogicalPlan::EmptyRelation { produce_one_row: sp, schema: ss }
            &&& sp == produce_one_row
            &&& (*ss)@ == (*schema)@
        },
        LogicalPlan::Limit { n, input } => {
            &&& s matches SerializedLogicalPlan::Limit { n: sn, input: si }
            &&& sn == n
            &&& plan_corr(*input, *si, b)
        },
        LogicalPlan::Skip { n, input } => {
            &&& s matches SerializedLogicalPlan::Skip { n: sn, input: si }
            &&& sn == n
            &&& plan_corr(*input, *si, b)
        },
        LogicalPlan::Repartition { input, partitioning_scheme } => {
            &&& s matches SerializedLogicalPlan::Repartition {
                input: si,
                partitioning_scheme: sps,
            }
            &&& plan_corr(*input, *si, b)
            &&& (match partitioning_scheme {
                Partitioning::RoundRobinBatch(n) => sps matches
                    SerializePartitioning::RoundRobinBatch(sn) && sn == n,
                Partitioning::Hash(es, n) => sps matches SerializePartitioning::Hash(ses, sn)
                    && exprs_corr(es@, ses@) && sn == n,
            })
        },
        LogicalPlan::CreateExternalTable { name: _ } => false,
        LogicalPlan::Explain { verbose: _, plan: _ } => false,
        LogicalPlan::Extension { node } => match node {
            ExtensionNode::ClusterSend(cs) => {
                &&& s matches SerializedLogicalPlan::ClusterSend { input: si, snapshots: ssn }
                &&& plan_corr(*cs.input, *si, b)
                &&& snapshot_lists_view(ssn@) == snapshot_lists_view(cs.snapshots@)
            },
            ExtensionNode::ClusterAggregateTopK(tk) => {
                &&& s matches SerializedLogicalPlan::ClusterAggregateTopK {
                    limit: slim,
                    input: si,
                    group_expr: sg,
                    aggregate_expr: sa,
                    sort_columns: sc,
                    schema: ss,
                    snapshots: ssn,
                }
                &&& slim == tk.limit
                &&& plan_corr(*tk.input, *si, b)
                &&& exprs_corr(tk.group_expr@, sg@)
                &&& exprs_corr(tk.aggregate_expr@, sa@)
                &&& sc@ == tk.order_by@
                &&& (*ss)@ == (*tk.schema)@
                &&& snapshot_lists_view(ssn@) == snapshot_lists_view(tk.snapshots@)
            },
            ExtensionNode::Other(_) => false,
        },
    }
}

/// [`plan_corr`], lifted over the input lists of a union node.
pub open spec fn plans_corr(
    a: Seq<Arc<LogicalPlan>>,
    b2: Seq<Arc<SerializedLogicalPlan>>,
    b: Option<Binding>,
) -> bool
    decreases a,
{
    &&& a.len() == b2.len()
    &&& forall|i: int| 0 <= i < a.len() ==> plan_corr(*(#[trigger] a[i]), *b2[i], b)
}

/// Whether an executable plan can be serialized: it holds no explain or
/// external-table-definition node, no extension operator beyond the two
/// known distributed kinds, every scan's source is the recognized
/// worker-table kind, and every user-defined function call is registered.
pub open spec fn plan_serializable(p: LogicalPlan) -> bool
    decreases p,
{
    match p {
        LogicalPlan::Projection { expr, input, schema: _ } => exprs_serializable(expr@)
            && plan_serializable(*input),
        LogicalPlan::Filter { predicate, input } => expr_serializable(predicate)
            && plan_serializable(*input),
        LogicalPlan::Aggregate { input, group_expr, aggr_expr, schema: _ } => plan_serializable(
            *input,
        ) && exprs_serializable(group_expr@) && exprs_serializable(aggr_expr@),
        LogicalPlan::Sort { expr, input } => exprs_serializable(expr@) && plan_serializable(
            *input,
        ),
        LogicalPlan::Union { inputs, schema: _, alias: _ } => plans_serializable(inputs@),
        LogicalPlan::Join { left, right, on: _, join_type: _, schema: _ } => plan_serializable(
            *left,
        ) && plan_serializable(*right),
        LogicalPlan::TableScan {
            table_name: _,
            source,
            projection: _,
            projected_schema: _,
            filters,
            alias: _,
            limit: _,
        } => source matches TableSource::CubeTable(_) && exprs_serializable(filters@),
        LogicalPlan::EmptyRelation { produce_one_row: _, schema: _ } => true,
        LogicalPlan::Limit { n: _, input } => plan_serializable(*input),
        LogicalPlan::Skip { n: _, input } => plan_serializable(*input),
        LogicalPlan::Repartition { input, partitioning_scheme } => plan_serializable(*input) && (
        match partitioning_scheme {
            Partitioning::RoundRobinBatch(_) => true,
            Partitioning::Hash(es, _) => exprs_serializable(es@),
        }),
        LogicalPlan::CreateExternalTable { name: _ } => false,
        LogicalPlan::Explain { verbose: _, plan: _ } => false,
        LogicalPlan::Extension { node } => match node {
            ExtensionNode::ClusterSend(cs) => plan_serializable(*cs.input),
            ExtensionNode::ClusterAggregateTopK(tk) => plan_serializable(*tk.input)
                && exprs_serializable(tk.group_expr@) && exprs_serializable(tk.aggregate_expr@),
            ExtensionNode::Other(_) => false,
        },
    }
}

/// [`plan_serializable`], lifted over the input lists of a union node.
pub open spec fn plans_serializable(a: Seq<Arc<LogicalPlan>>) -> bool
    decreases a,
{
    forall|i: int| 0 <= i < a.len() ==> plan_serializable(*(#[trigger] a[i]))
}

/// Which errors serializing an executable plan can raise, and from where:
/// an unsupported node kind, an unrecognized extension operator, a scan
/// whose source is not the recognized worker-table kind, or an unregistered
/// user-defined function name somewhere in its expressions.
pub open spec fn plan_err_witness(p: LogicalPlan, err: CubeError) -> bool
    decreases p,
{
    match p {
        LogicalPlan::Projection { expr, input, schema: _ } => exprs_err_witness(expr@, err)
            || plan_err_witness(*input, err),
        LogicalPlan::Filter { predicate, input } => expr_err_witness(predicate, err)
            || plan_err_witness(*input, err),
        LogicalPlan::Aggregate { input, group_expr, aggr_expr, schema: _ } => plan_err_witness(
            *input,
            err,
        ) || exprs_err_witness(group_expr@, err) || exprs_err_witness(aggr_expr@, err),
        LogicalPlan::Sort { expr, input } => exprs_err_witness(expr@, err) || plan_err_witness(
            *input,
            err,
        ),
        LogicalPlan::Union { inputs, schema: _, alias: _ } => plans_err_witness(inputs@, err),
        LogicalPlan::Join { left, right, on: _, join_type: _, schema: _ } => plan_err_witness(
            *left,
            err,
        ) || plan_err_witness(*right, err),
        LogicalPlan::TableScan {
            table_name: _,
            source,
            projection: _,
            projected_schema: _,
            filters,
            alias: _,
            limit: _,
        } => (source matches TableSource::Other(_) && err is UnexpectedTableSource)
            || exprs_err_witness(filters@, err),
        LogicalPlan::EmptyRelation { produce_one_row: _, schema: _ } => false,
        LogicalPlan::Limit { n: _, input } => plan_err_witness(*input, err),
        LogicalPlan::Skip { n: _, input } => plan_err_witness(*input, err),
        LogicalPlan::Repartition { input, partitioning_scheme } => plan_err_witness(*input, err)
            || (match partitioning_scheme {
            Partitioning::RoundRobinBatch(_) => false,
            Partitioning::Hash(es, _) => exprs_err_witness(es@, err),
        }),
        LogicalPlan::CreateExternalTable { name: _ } => err is UnsupportedPlan,
        LogicalPlan::Explain { verbose: _, plan: _ } => err is UnsupportedPlan,
        LogicalPlan::Extension { node } => match node {
            ExtensionNode::ClusterSend(cs) => plan_err_witness(*cs.input, err),
            ExtensionNode::ClusterAggregateTopK(tk) => plan_err_witness(*tk.input, err)
                || exprs_err_witness(tk.group_expr@, err) || exprs_err_witness(
                tk.aggregate_expr@,
                err,
            ),
            ExtensionNode::Other(_) => err is UnrecognizedExtension,
        },
    }
}

/// [`plan_err_witness`], lifted over the input lists of a union node.
pub open spec fn plans_err_witness(a: Seq<Arc<LogicalPlan>>, err: CubeError) -> bool
    decreases a,
{
    exists|i: int| 0 <= i < a.len() && plan_err_witness(*(#[trigger] a[i]), err)
}

/// The binding that materialization stamps into every table scan, from the
/// worker's file mapping and assigned partition-id set.
pub open spec fn binding_of(names: Seq<(String, String)>, ids: Set<u64>) -> Option<Binding> {
    Option::Some(Binding { names: name_map_view(names), ids: ids })
}

/// Serializes one executable plan node, recursively, into its snapshot
/// form. Succeeds exactly when the plan is serializable
/// ([`plan_serializable`]); any failure aborts the whole call with the
/// first offending node's error and no partial snapshot.
#[verifier::loop_isolation(false)]
pub fn serialized_logical_plan(p: &LogicalPlan) -> (r: Result<SerializedLogicalPlan, CubeError>)
    ensures
        r matches Result::Ok(s) ==> plan_corr(*p, s, Option::None),
        r is Ok <==> plan_serializable(*p),
        r matches Result::Err(err) ==> plan_err_witness(*p, err),
    decreases *p,
{
    match p {
        LogicalPlan::Projection { expr, input, schema } => {
            let se = match serialized_exprs(expr) {
                Result::Ok(v) => v,
                Result::Err(err) => return Result::Err(err),
            };
            let si = match serialized_logical_plan(&**input) {
                Result::Ok(v) => v,
                Result::Err(err) => return Result::Err(err),
            };
            Result::Ok(
                SerializedLogicalPlan::Projection {
                    expr: se,
                    input: Arc::new(si),
                    schema: schema.clone(),
                },
            )
        },
        LogicalPlan::Filter { predicate, input } => {
            let sp = match serialized_expr(predicate) {
                Result::Ok(v) => v,
                Result::Err(err) => return Result::Err(err),
            };
            let si = match serialized_logical_plan(&**input) {
                Result::Ok(v) => v,
                Result::Err(err) => return Result::Err(err),
            };
            Result::Ok(SerializedLogicalPlan::Filter { predicate: sp, input: Arc::new(si) })
        },
        LogicalPlan::Aggregate { input, group_expr, aggr_expr, schema } => {
            let si = match serialized_logical_plan(&**input) {
                Result::Ok(v) => v,
                Result::Err(err) => return Result::Err(err),
            };
            let sg = match serialized_exprs(group_expr) {
                Result::Ok(v) => v,
                Result::Err(err) => return Result::Err(err),
            };
            let sa = match serialized_exprs(aggr_expr) {
                Result::Ok(v) => v,
                Result::Err(err) => return Result::Err(err),
            };
            Result::Ok(
                SerializedLogicalPlan::Aggregate {
                    input: Arc::new(si),
                    group_expr: sg,
                    aggr_expr: sa,
                    schema: schema.clone(),
                },
            )
        },
        LogicalPlan::Sort { expr, input } => {
            let se = match serialized_exprs(expr) {
                Result::Ok(v) => v,
                Result::Err(err) => return Result::Err(err),
            };
            let si = match serialized_logical_plan(&**input) {
                Result::Ok(v) => v,
                Result::Err(err) => return Result::Err(err),
            };
            Result::Ok(SerializedLogicalPlan::Sort { expr: se, input: Arc::new(si) })
        },
        LogicalPlan::Union { inputs, schema, alias } => {
            let mut si: Vec<Arc<SerializedLogicalPlan>> = Vec::new();
            let mut i: usize = 0;
            while i < inputs.len()
                invariant
                    i <= inputs.len(),
                    si@.len() == i as nat,
                    forall|j: int| 0 <= j < i ==> plan_serializable(*(#[trigger] inputs@[j]))
                        && plan_corr(*inputs@[j], *si@[j], Option::None),
                decreases inputs@.len() - i,
            {
                proof {
                    assert(*inputs == (*p)->Union_inputs);
                    assert(decreases_to!(*p => (*p)->Union_inputs));
                    assert(decreases_to!(*inputs => inputs@));
                    assert(decreases_to!(inputs@ => inputs@[i as int]));
                    assert(decreases_to!(*p => inputs@[i as int]));
                }
                match serialized_logical_plan(&*inputs[i]) {
                    Result::Ok(s) => si.push(Arc::new(s)),
                    Result::Err(err) => {
                        proof {
                            assert(0 <= i < inputs@.len() && plan_err_witness(
                                *inputs@[i as int],
                                err,
                            ));
                            assert(!plan_serializable(*inputs@[i as int]));
                            assert(plans_err_witness(inputs@, err));
                            assert(!plans_serializable(inputs@));
                            assert(plan_err_witness(*p, err));
                            assert(!plan_serializable(*p));
                        }
                        return Result::Err(err);
                    },
                }
                i += 1;
            }
            proof {
                assert(plans_serializable(inputs@));
                assert(plans_corr(inputs@, si@, Option::None));
            }
            Result::Ok(
                SerializedLogicalPlan::Union {
                    inputs: si,
                    schema: schema.clone(),
                    alias: duplicate_opt_string(alias),
                },
            )
        },
        LogicalPlan::Join { left, right, on, join_type, schema } => {
            let sl = match serialized_logical_plan(&**left) {
                Result::Ok(v) => v,
                Result::Err(err) => return Result::Err(err),
            };
            let sr = match serialized_logical_plan(&**right) {
                Result::Ok(v) => v,
                Result::Err(err) => return Result::Err(err),
            };
            Result::Ok(
                SerializedLogicalPlan::Join {
                    left: Arc::new(sl),
                    right: Arc::new(sr),
                    on: duplicate_name_map(on),
                    join_type: *join_type,
                    schema: schema.clone(),
                },
            )
        },
        LogicalPlan::TableScan {
            table_name,
            source,
            projection,
            projected_schema,
            filters,
            alias,
            limit,
        } => {
            let st = match source {
                TableSource::CubeTable(t) => t.duplicate(),
                TableSource::Other(_) => return Result::Err(CubeError::UnexpectedTableSource),
            };
            let sf = match serialized_exprs(filters) {
                Result::Ok(v) => v,
                Result::Err(err) => return Result::Err(err),
            };
            Result::Ok(
                SerializedLogicalPlan::TableScan {
                    table_name: table_name.clone(),
                    source: SerializedTableSource::CubeTable(st),
                    projection: duplicate_projection(projection),
                    projected_schema: projected_schema.clone(),
                    filters: sf,
                    alias: duplicate_opt_string(alias),
                    limit: *limit,
                },
            )
        },
        LogicalPlan::EmptyRelation { produce_one_row, schema } => Result::Ok(
            SerializedLogicalPlan::EmptyRelation {
                produce_one_row: *produce_one_row,
                schema: schema.clone(),
            },
        ),
        LogicalPlan::Limit { n, input } => {
            let si = match serialized_logical_plan(&**input) {
                Result::Ok(v) => v,
                Result::Err(err) => return Result::Err(err),
            };
            Result::Ok(SerializedLogicalPlan::Limit { n: *n, input: Arc::new(si) })
        },
        LogicalPlan::Skip { n, input } => {
            let si = match serialized_logical_plan(&**input) {
                Result::Ok(v) => v,
                Result::Err(err) => return Result::Err(err),
            };
            Result::Ok(SerializedLogicalPlan::Skip { n: *n, input: Arc::new(si) })
        },
        LogicalPlan::Repartition { input, partitioning_scheme } => {
            let si = match serialized_logical_plan(&**input) {
                Result::Ok(v) => v,
                Result::Err(err) => return Result::Err(err),
            };
            let sps = match partitioning_scheme {
                Partitioning::RoundRobinBatch(n) => SerializePartitioning::RoundRobinBatch(*n),
                Partitioning::Hash(es, n) => {
                    let ses = match serialized_exprs(es) {
                        Result::Ok(v) => v,
                        Result::Err(err) => return Result::Err(err),
                    };
                    SerializePartitioning::Hash(ses, *n)
                },
            };
            Result::Ok(
                SerializedLogicalPlan::Repartition {
                    input: Arc::new(si),
                    partitioning_scheme: sps,
                },
            )
        },
        LogicalPlan::CreateExternalTable { name: _ } => Result::Err(CubeError::UnsupportedPlan),
        LogicalPlan::Explain { verbose: _, plan: _ } => Result::Err(CubeError::UnsupportedPlan),
        LogicalPlan::Extension { node } => match node {
            ExtensionNode::ClusterSend(cs) => {
                let si = match serialized_logical_plan(&*cs.input) {
                    Result::Ok(v) => v,
                    Result::Err(err) => return Result::Err(err),
                };
                Result::Ok(
                    SerializedLogicalPlan::ClusterSend {
                        input: Arc::new(si),
                        snapshots: duplicate_snapshot_lists(&cs.snapshots),
                    },
                )
            },
            ExtensionNode::ClusterAggregateTopK(tk) => {
                let si = match serialized_logical_plan(&*tk.input) {
                    Result::Ok(v) => v,
                    Result::Err(err) => return Result::Err(err),
                };
                let sg = match serialized_exprs(&tk.group_expr) {
                    Result::Ok(v) => v,
                    Result::Err(err) => return Result::Err(err),
                };
                let sa = match serialized_exprs(&tk.aggregate_expr) {
                    Result::Ok(v) => v,
                    Result::Err(err) => return Result::Err(err),
                };
                Result::Ok(
                    SerializedLogicalPlan::ClusterAggregateTopK {
                        limit: tk.limit,
                        input: Arc::new(si),
                        group_expr: sg,
                        aggregate_expr: sa,
                        sort_columns: duplicate_sort_columns(&tk.order_by),
                        schema: tk.schema.clone(),
                        snapshots: duplicate_snapshot_lists(&tk.snapshots),
                    },
                )
            },
            ExtensionNode::Other(_) => Result::Err(CubeError::UnrecognizedExtension),
        },
    }
}

impl SerializedLogicalPlan {
    /// Materializes this snapshot plan back into an executable plan bound
    /// for one worker: every table scan is bound through its table-access
    /// capability to the worker's remote-to-local file mapping and assigned
    /// partition-id set. Total: every snapshot plan materializes, and a
    /// recursive failure of a child would abort the whole call.
    #[verifier::loop_isolation(false)]
    pub fn logical_plan(
        &self,
        remote_to_local_names: &Vec<(String, String)>,
        worker_partition_ids: &HashSet<u64>,
    ) -> (r: Result<LogicalPlan, CubeError>)
        ensures
            r is Ok,
            r matches Result::Ok(p) ==> plan_corr(
                p,
                *self,
                binding_of(remote_to_local_names@, worker_partition_ids@),
            ),
        decreases *self,
    {
        match self {
            SerializedLogicalPlan::Projection { expr, input, schema } => {
                let pi = match (&**input).logical_plan(remote_to_local_names, worker_partition_ids)
                {
                    Result::Ok(v) => v,
                    Result::Err(err) => return Result::Err(err),
                };
                Result::Ok(
                    LogicalPlan::Projection {
                        expr: materialize_exprs(expr),
                        input: Arc::new(pi),
                        schema: schema.clone(),
                    },
                )
            },
            SerializedLogicalPlan::Filter { predicate, input } => {
                let pi = match (&**input).logical_plan(remote_to_local_names, worker_partition_ids)
                {
                    Result::Ok(v) => v,
                    Result::Err(err) => return Result::Err(err),
                };
                Result::Ok(
                    LogicalPlan::Filter { predicate: predicate.expr(), input: Arc::new(pi) },
                )
            },
            SerializedLogicalPlan::Aggregate { input, group_expr, aggr_expr, schema } => {
                let pi = match (&**input).logical_plan(remote_to_local_names, worker_partition_ids)
                {
                    Result::Ok(v) => v,
                    Result::Err(err) => return Result::Err(err),
                };
                Result::Ok(
                    LogicalPlan::Aggregate {
                        input: Arc::new(pi),
                        group_expr: materialize_exprs(group_expr),
                        aggr_expr: materialize_exprs(aggr_expr),
                        schema: schema.clone(),
                    },
                )
            },
            SerializedLogicalPlan::Sort { expr, input } => {
                let pi = match (&**input).logical_plan(remote_to_local_names, worker_partition_ids)
                {
                    Result::Ok(v) => v,
                    Result::Err(err) => return Result::Err(err),
                };
                Result::Ok(
                    LogicalPlan::Sort { expr: materialize_exprs(expr), input: Arc::new(pi) },
                )
            },
            SerializedLogicalPlan::Union { inputs, schema, alias } => {
                let mut pi: Vec<Arc<LogicalPlan>> = Vec::new();
                let mut i: usize = 0;
                while i < inputs.len()
                    invariant
                        i <= inputs.len(),
                        pi@.len() == i as nat,
                        forall|j: int| 0 <= j < i ==> plan_corr(
                            *(#[trigger] pi@[j]),
                            *inputs@[j],
                            binding_of(remote_to_local_names@, worker_partition_ids@),
                        ),
                    decreases inputs@.len() - i,
                {
                    proof {
                        assert(*inputs == (*self)->Union_inputs);
                        assert(decreases_to!(*self => (*self)->Union_inputs));
                        assert(decreases_to!(*inputs => inputs@));
                        assert(decreases_to!(inputs@ => inputs@[i as int]));
                        assert(decreases_to!(*self => inputs@[i as int]));
                    }
                    match (&*inputs[i]).logical_plan(remote_to_local_names, worker_partition_ids) {
                        Result::Ok(v) => pi.push(Arc::new(v)),
                        Result::Err(err) => return Result::Err(err),
                    }
                    i += 1;
                }
                proof {
                    assert(plans_corr(
                        pi@,
                        inputs@,
                        binding_of(remote_to_local_names@, worker_partition_ids@),
                    ));
                }
                Result::Ok(
                    LogicalPlan::Union {
                        inputs: pi,
                        schema: schema.clone(),
                        alias: duplicate_opt_string(alias),
                    },
                )
            },
            SerializedLogicalPlan::Join { left, right, on, join_type, schema } => {
                let pl = match (&**left).logical_plan(remote_to_local_names, worker_partition_ids)
                {
                    Result::Ok(v) => v,
                    Result::Err(err) => return Result::Err(err),
                };
                let pr = match (&**right).logical_plan(remote_to_local_names, worker_partition_ids)
                {
                    Result::Ok(v) => v,
                    Result::Err(err) => return Result::Err(err),
                };
                Result::Ok(
                    LogicalPlan::Join {
                        left: Arc::new(pl),
                        right: Arc::new(pr),
                        on: duplicate_name_map(on),
                        join_type: *join_type,
                        schema: schema.clone(),
                    },
                )
            },
            SerializedLogicalPlan::TableScan {
                table_name,
                source,
                projection,
                projected_schema,
                filters,
                alias,
                limit,
            } => {
                let bound = match source {
                    SerializedTableSource::CubeTable(t) => t.to_worker_table(
                        duplicate_name_map(remote_to_local_names),
                        clone_id_set(worker_partition_ids),
                    ),
                };
                Result::Ok(
                    LogicalPlan::TableScan {
                        table_name: table_name.clone(),
                        source: TableSource::CubeTable(bound),
                        projection: duplicate_projection(projection),
                        projected_schema: projected_schema.clone(),
                        filters: materialize_exprs(filters),
                        alias: duplicate_opt_string(alias),
                        limit: *limit,
                    },
                )
            },
            SerializedLogicalPlan::EmptyRelation { produce_one_row, schema } => Result::Ok(
                LogicalPlan::EmptyRelation {
                    produce_one_row: *produce_one_row,
                    schema: schema.clone(),
                },
            ),
            SerializedLogicalPlan::Limit { n, input } => {
                let pi = match (&**input).logical_plan(remote_to_local_names, worker_partition_ids)
                {
                    Result::Ok(v) => v,
                    Result::Err(err) => return Result::Err(err),
                };
                Result::Ok(LogicalPlan::Limit { n: *n, input: Arc::new(pi) })
            },
            SerializedLogicalPlan::Skip { n, input } => {
                let pi = match (&**input).logical_plan(remote_to_local_names, worker_partition_ids)
                {
                    Result::Ok(v) => v,
                    Result::Err(err) => return Result::Err(err),
                };
                Result::Ok(LogicalPlan::Skip { n: *n, input: Arc::new(pi) })
            },
            SerializedLogicalPlan::Repartition { input, partitioning_scheme } => {
                let pi = match (&**input).logical_plan(remote_to_local_names, worker_partition_ids)
                {
                    Result::Ok(v) => v,
                    Result::Err(err) => return Result::Err(err),
                };
                let ps = match partitioning_scheme {
                    SerializePartitioning::RoundRobinBatch(n) => Partitioning::RoundRobinBatch(*n),
                    SerializePartitioning::Hash(es, n) => Partitioning::Hash(
                        materialize_exprs(es),
                        *n,
                    ),
                };
                Result::Ok(
                    LogicalPlan::Repartition { input: Arc::new(pi), partitioning_scheme: ps },
                )
            },
            SerializedLogicalPlan::ClusterSend { input, snapshots } => {
                let pi = match (&**input).logical_plan(remote_to_local_names, worker_partition_ids)
                {
                    Result::Ok(v) => v,
                    Result::Err(err) => return Result::Err(err),
                };
                Result::Ok(
                    ClusterSendNode {
                        input: Arc::new(pi),
                        snapshots: duplicate_snapshot_lists(snapshots),
                    }.into_plan(),
                )
            },
            SerializedLogicalPlan::ClusterAggregateTopK {
                limit,
                input,
                group_expr,
                aggregate_expr,
                sort_columns,
                schema,
                snapshots,
            } => {
                let pi = match (&**input).logical_plan(remote_to_local_names, worker_partition_ids)
                {
                    Result::Ok(v) => v,
                    Result::Err(err) => return Result::Err(err),
                };
                Result::Ok(
                    ClusterAggregateTopK {
                        limit: *limit,
                        input: Arc::new(pi),
                        group_expr: materialize_exprs(group_expr),
                        aggregate_expr: materialize_exprs(aggregate_expr),
                        order_by: duplicate_sort_columns(sort_columns),
                        schema: schema.clone(),
                        snapshots: duplicate_snapshot_lists(snapshots),
                    }.into_plan(),
                )
            },
        }
    }
}

} // verus!
