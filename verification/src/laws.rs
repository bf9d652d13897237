//! The laws of the snapshot layer.
//!
//! Round trip: materializing a serialized plan yields a plan of the same
//! operator/expression shape and schema as the original, with every scan
//! source rebound for the worker. Restriction: the file resolver is
//! monotone in the partition-id set, and an empty set yields an empty file
//! list.

use vstd::prelude::*;
use std::sync::Arc;

use crate::plan::{
    Expr, ExtensionNode, LogicalPlan, Partitioning, TableSource, name_map_view, opt_str_view,
};
use crate::serialized_expr::{
    SerializedExpr, expr_corr, exprs_corr, opt_expr_corr, wt_corr,
};
use crate::serialized_logical_plan::{
    Binding, SerializedLogicalPlan, opt_proj_view, plan_corr, plans_corr,
};
use crate::serialized_plan::{
    partition_files_under, partitions_files, snapshots_files,
};
use crate::snapshot::{IndexSnapshotV, PartitionSnapshotV};
use crate::udfs::{lemma_aggregate_name_determined, lemma_scalar_name_determined};

verus! {

/// Shape equivalence of two executable expressions: identical variant
/// shape and field values, strings compared by their character sequences,
/// user-defined functions by their descriptor names.
pub open spec fn expr_equiv(a: Expr, b: Expr) -> bool
    decreases a,
{
    match a {
        Expr::Alias(x, n) => {
            &&& b matches Expr::Alias(y, m)
            &&& expr_equiv(*x, *y)
            &&& m@ == n@
        },
        Expr::Column(c, al) => {
            &&& b matches Expr::Column(bc, bal)
            &&& bc@ == c@
            &&& opt_str_view(bal) == opt_str_view(al)
        },
        Expr::ScalarVariable(v) => {
            &&& b matches Expr::ScalarVariable(bv)
            &&& bv@.map_values(|x: String| x@) == v@.map_values(|x: String| x@)
        },
        Expr::Literal(v) => {
            &&& b matches Expr::Literal(bv)
            &&& bv@ == v@
        },
        Expr::BinaryExpr { left, op, right } => {
            &&& b matches Expr::BinaryExpr { left: bl, op: bop, right: br }
            &&& expr_equiv(*left, *bl)
            &&& bop == op
            &&& expr_equiv(*right, *br)
        },
        Expr::Not(x) => {
            &&& b matches Expr::Not(y)
            &&& expr_equiv(*x, *y)
        },
        Expr::IsNotNull(x) => {
            &&& b matches Expr::IsNotNull(y)
            &&& expr_equiv(*x, *y)
        },
        Expr::IsNull(x) => {
            &&& b matches Expr::IsNull(y)
            &&& expr_equiv(*x, *y)
        },
        Expr::Negative(x) => {
            &&& b matches Expr::Negative(y)
            &&& expr_equiv(*x, *y)
        },
        Expr::Between { expr, negated, low, high } => {
            &&& b matches Expr::Between { expr: be, negated: bn, low: bl, high: bh }
            &&& expr_equiv(*expr, *be)
            &&& bn == negated
            &&& expr_equiv(*low, *bl)
            &&& expr_equiv(*high, *bh)
        },
        Expr::Case { expr, when_then_expr, else_expr } => {
            &&& b matches Expr::Case { expr: be, when_then_expr: bwt, else_expr: bel }
            &&& opt_expr_equiv(expr, be)
            &&& wt_equiv(when_then_expr@, bwt@)
            &&& opt_expr_equiv(else_expr, bel)
        },
        Expr::Cast { expr, data_type } => {
            &&& b matches Expr::Cast { expr: be, data_type: bd }
            &&& expr_equiv(*expr, *be)
            &&& bd == data_type
        },
        Expr::TryCast { expr, data_type } => {
            &&& b matches Expr::TryCast { expr: be, data_type: bd }
            &&& expr_equiv(*expr, *be)
            &&& bd == data_type
        },
        Expr::Sort { expr, asc, nulls_first } => {
            &&& b matches Expr::Sort { expr: be, asc: ba, nulls_first: bnf }
            &&& expr_equiv(*expr, *be)
            &&& ba == asc
            &&& bnf == nulls_first
        },
        Expr::ScalarFunction { fun, args } => {
            &&& b matches Expr::ScalarFunction { fun: bf, args: bargs }
            &&& bf == fun
            &&& exprs_equiv(args@, bargs@)
        },
        Expr::ScalarUDF { fun, args } => {
            &&& b matches Expr::ScalarUDF { fun: bf, args: bargs }
            &&& (*bf).name@ == (*fun).name@
            &&& exprs_equiv(args@, bargs@)
        },
        Expr::AggregateFunction { fun, args, distinct } => {
            &&& b matches Expr::AggregateFunction { fun: bf, args: bargs, distinct: bd }
            &&& bf == fun
            &&& exprs_equiv(args@, bargs@)
            &&& bd == distinct
        },
        Expr::AggregateUDF { fun, args } => {
            &&& b matches Expr::AggregateUDF { fun: bf, args: bargs }
            &&& (*bf).name@ == (*fun).name@
            &&& exprs_equiv(args@, bargs@)
        },
        Expr::InList { expr, list, negated } => {
            &&& b matches Expr::InList { expr: be, list: bl, negated: bn }
            &&& expr_equiv(*expr, *be)
            &&& exprs_equiv(list@, bl@)
            &&& bn == negated
        },
        Expr::Wildcard => b is Wildcard,
    }
}

/// [`expr_equiv`], lifted over expression lists.
pub open spec fn exprs_equiv(a: Seq<Expr>, b: Seq<Expr>) -> bool
    decreases a,
{
    &&& a.len() == b.len()
    &&& forall|i: int| 0 <= i < a.len() ==> expr_equiv(#[trigger] a[i], b[i])
}

/// [`expr_equiv`], lifted over optional expressions.
pub open spec fn opt_expr_equiv(a: Option<Box<Expr>>, b: Option<Box<Expr>>) -> bool
    decreases a,
{
    match a {
        Option::Some(x) => b matches Option::Some(y) && expr_equiv(*x, *y),
        Option::None => b is None,
    }
}

/// [`expr_equiv`], lifted over when/then pair lists.
pub open spec fn wt_equiv(a: Seq<(Box<Expr>, Box<Expr>)>, b: Seq<(Box<Expr>, Box<Expr>)>) -> bool
    decreases a,
{
    &&& a.len() == b.len()
    &&& forall|i: int| 0 <= i < a.len() ==> expr_equiv(*(#[trigger] a[i]).0, *b[i].0)
        && expr_equiv(*a[i].1, *b[i].1)
}

/// Law: expression round trip. Two executable expressions that correspond
/// to the same snapshot expression are shape-equivalent; in particular,
/// materializing the serialized form of an expression yields a
/// shape-equivalent expression, with every user-defined function call
/// keeping its name and argument count.
pub proof fn lemma_expr_round_trip(a: Expr, s: SerializedExpr, b: Expr)
    requires
        expr_corr(a, s),
        expr_corr(b, s),
    ensures
        expr_equiv(a, b),
    decreases a,
{
    match a {
        Expr::Alias(x, _) => {
            match b {
                Expr::Alias(y, _) => lemma_expr_round_trip(*x, *s->Alias_0, *y),
                _ => {},
            }
        },
        Expr::BinaryExpr { left, op: _, right } => {
            match b {
                Expr::BinaryExpr { left: bl, op: _, right: br } => {
                    lemma_expr_round_trip(*left, *s->BinaryExpr_left, *bl);
                    lemma_expr_round_trip(*right, *s->BinaryExpr_right, *br);
                },
                _ => {},
            }
        },
        Expr::Not(x) => {
            match b {
                Expr::Not(y) => lemma_expr_round_trip(*x, *s->Not_0, *y),
                _ => {},
            }
        },
        Expr::IsNotNull(x) => {
            match b {
                Expr::IsNotNull(y) => lemma_expr_round_trip(*x, *s->IsNotNull_0, *y),
                _ => {},
            }
        },
        Expr::IsNull(x) => {
            match b {
                Expr::IsNull(y) => lemma_expr_round_trip(*x, *s->IsNull_0, *y),
                _ => {},
            }
        },
        Expr::Negative(x) => {
            match b {
                Expr::Negative(y) => lemma_expr_round_trip(*x, *s->Negative_0, *y),
                _ => {},
            }
        },
        Expr::Between { expr, negated: _, low, high } => {
            match b {
                Expr::Between { expr: be, negated: _, low: bl, high: bh } => {
                    lemma_expr_round_trip(*expr, *s->Between_expr, *be);
                    lemma_expr_round_trip(*low, *s->Between_low, *bl);
                    lemma_expr_round_trip(*high, *s->Between_high, *bh);
                },
                _ => {},
            }
        },
        Expr::Case { expr, when_then_expr, else_expr } => {
            match b {
                Expr::Case { expr: be, when_then_expr: bwt, else_expr: bel } => {
                    lemma_opt_expr_round_trip(expr, s->Case_expr, be);
                    lemma_wt_round_trip(when_then_expr@, s->Case_when_then_expr@, bwt@);
                    lemma_opt_expr_round_trip(else_expr, s->Case_else_expr, bel);
                },
                _ => {},
            }
        },
        Expr::Cast { expr, data_type: _ } => {
            match b {
                Expr::Cast { expr: be, data_type: _ } => {
                    lemma_expr_round_trip(*expr, *s->Cast_expr, *be);
                },
                _ => {},
            }
        },
        Expr::TryCast { expr, data_type: _ } => {
            match b {
                Expr::TryCast { expr: be, data_type: _ } => {
                    lemma_expr_round_trip(*expr, *s->TryCast_expr, *be);
                },
                _ => {},
            }
        },
        Expr::Sort { expr, asc: _, nulls_first: _ } => {
            match b {
                Expr::Sort { expr: be, asc: _, nulls_first: _ } => {
                    lemma_expr_round_trip(*expr, *s->Sort_expr, *be);
                },
                _ => {},
            }
        },
        Expr::ScalarFunction { fun: _, args } => {
            match b {
                Expr::ScalarFunction { fun: _, args: bargs } => {
                    lemma_exprs_round_trip(args@, s->ScalarFunction_args@, bargs@);
                },
                _ => {},
            }
        },
        Expr::ScalarUDF { fun, args } => {
            match b {
                Expr::ScalarUDF { fun: bf, args: bargs } => {
                    let k = s->ScalarUDF_fun;
                    lemma_scalar_name_determined((*fun).name@, k);
                    lemma_scalar_name_determined((*bf).name@, k);
                    lemma_exprs_round_trip(args@, s->ScalarUDF_args@, bargs@);
                },
                _ => {},
            }
        },
        Expr::AggregateFunction { fun: _, args, distinct: _ } => {
            match b {
                Expr::AggregateFunction { fun: _, args: bargs, distinct: _ } => {
                    lemma_exprs_round_trip(args@, s->AggregateFunction_args@, bargs@);
                },
                _ => {},
            }
        },
        Expr::AggregateUDF { fun, args } => {
            match b {
                Expr::AggregateUDF { fun: bf, args: bargs } => {
                    let k = s->AggregateUDF_fun;
                    lemma_aggregate_name_determined((*fun).name@, k);
                    lemma_aggregate_name_determined((*bf).name@, k);
                    lemma_exprs_round_trip(args@, s->AggregateUDF_args@, bargs@);
                },
                _ => {},
            }
        },
        Expr::InList { expr, list, negated: _ } => {
            match b {
                Expr::InList { expr: be, list: bl, negated: _ } => {
                    lemma_expr_round_trip(*expr, *s->InList_expr, *be);
                    lemma_exprs_round_trip(list@, s->InList_list@, bl@);
                },
                _ => {},
            }
        },
        _ => {},
    }
}

/// [`lemma_expr_round_trip`], lifted over expression lists.
pub proof fn lemma_exprs_round_trip(a: Seq<Expr>, s: Seq<SerializedExpr>, b: Seq<Expr>)
    requires
        exprs_corr(a, s),
        exprs_corr(b, s),
    ensures
        exprs_equiv(a, b),
    decreases a,
{
    assert forall|i: int| 0 <= i < a.len() implies expr_equiv(#[trigger] a[i], b[i]) by {
        lemma_expr_round_trip(a[i], s[i], b[i]);
    }
}

/// [`lemma_expr_round_trip`], lifted over optional expressions.
pub proof fn lemma_opt_expr_round_trip(
    a: Option<Box<Expr>>,
    s: Option<Box<SerializedExpr>>,
    b: Option<Box<Expr>>,
)
    requires
        opt_expr_corr(a, s),
        opt_expr_corr(b, s),
    ensures
        opt_expr_equiv(a, b),
    decreases a,
{
    match a {
        Option::Some(x) => {
            match b {
                Option::Some(y) => lemma_expr_round_trip(*x, *s->0, *y),
                Option::None => {},
            }
        },
        Option::None => {},
    }
}

/// [`lemma_expr_round_trip`], lifted over when/then pair lists.
pub proof fn lemma_wt_round_trip(
    a: Seq<(Box<Expr>, Box<Expr>)>,
    s: Seq<(Box<SerializedExpr>, Box<SerializedExpr>)>,
    b: Seq<(Box<Expr>, Box<Expr>)>,
)
    requires
        wt_corr(a, s),
        wt_corr(b, s),
    ensures
        wt_equiv(a, b),
    decreases a,
{
    assert forall|i: int| 0 <= i < a.len() implies expr_equiv(*(#[trigger] a[i]).0, *b[i].0)
        && expr_equiv(*a[i].1, *b[i].1) by {
        lemma_expr_round_trip(*a[i].0, *s[i].0, *b[i].0);
        lemma_expr_round_trip(*a[i].1, *s[i].1, *b[i].1);
    }
}

/// Shape equivalence of an original plan and its worker-side rebuild:
/// identical operator shape, schemas and field values, expressions
/// shape-equivalent, and each scan reading the same index snapshot, with
/// the rebuilt side's scan sources bound per `bind` when a binding is
/// given. Scan-source object identity is not compared, only the capability's
/// content and binding.
pub open spec fn plan_equiv(a: LogicalPlan, b: LogicalPlan, bind: Option<Binding>) -> bool
    decreases a,
{
    match a {
        LogicalPlan::Projection { expr, input, schema } => {
            &&& b matches LogicalPlan::Projection { expr: be, input: bi, schema: bs }
            &&& exprs_equiv(expr@, be@)
            &&& plan_equiv(*input, *bi, bind)
            &&& (*bs)@ == (*schema)@
        },
        LogicalPlan::Filter { predicate, input } => {
            &&& b matches LogicalPlan::Filter { predicate: bp, input: bi }
            &&& expr_equiv(predicate, bp)
            &&& plan_equiv(*input, *bi, bind)
        },
        LogicalPlan::Aggregate { input, group_expr, aggr_expr, schema } => {
            &&& b matches LogicalPlan::Aggregate {
                input: bi,
                group_expr: bg,
                aggr_expr: ba,
                schema: bs,
            }
            &&& plan_equiv(*input, *bi, bind)
            &&& exprs_equiv(group_expr@, bg@)
            &&& exprs_equiv(aggr_expr@, ba@)
            &&& (*bs)@ == (*schema)@
        },
        LogicalPlan::Sort { expr, input } => {
            &&& b matches LogicalPlan::Sort { expr: be, input: bi }
            &&& exprs_equiv(expr@, be@)
            &&& plan_equiv(*input, *bi, bind)
        },
        LogicalPlan::Union { inputs, schema, alias } => {
            &&& b matches LogicalPlan::Union { inputs: bi, schema: bs, alias: bal }
            &&& plans_equiv(inputs@, bi@, bind)
            &&& (*bs)@ == (*schema)@
            &&& opt_str_view(bal) == opt_str_view(alias)
        },
        LogicalPlan::Join { left, right, on, join_type, schema } => {
            &&& b matches LogicalPlan::Join {
                left: bl,
                right: br,
                on: bon,
                join_type: bj,
                schema: bs,
            }
            &&& plan_equiv(*left, *bl, bind)
            &&& plan_equiv(*right, *br, bind)
            &&& name_map_view(bon@) == name_map_view(on@)
            &&& bj == join_type
            &&& (*bs)@ == (*schema)@
        },
        LogicalPlan::TableScan {
            table_name,
            source,
            projection,
            projected_schema,
            filters,
            alias,
            limit,
        } => {
            &&& b matches LogicalPlan::TableScan {
                table_name: btn,
                source: bsrc,
                projection: bproj,
                projected_schema: bps,
                filters: bf,
                alias: bal,
                limit: blim,
            }
            &&& btn@ == table_name@
            &&& (match source {
                TableSource::CubeTable(t) => {
                    &&& bsrc matches TableSource::CubeTable(bt)
                    &&& bt@.index_snapshot == t@.index_snapshot
                    &&& (match bind {
                        Option::Some(bb) => bt@.remote_to_local_names == bb.names
                            && bt@.worker_partition_ids == bb.ids,
                        Option::None => true,
                    })
                },
                TableSource::Other(_) => false,
            })
            &&& opt_proj_view(bproj) == opt_proj_view(projection)
            &&& (*bps)@ == (*projected_schema)@
            &&& exprs_equiv(filters@, bf@)
            &&& opt_str_view(bal) == opt_str_view(alias)
            &&& blim == limit
        },
        LogicalPlan::EmptyRelation { produce_one_row, schema } => {
            &&& b matches LogicalPlan::EmptyRelation { produce_one_row: bp, schema: bs }
            &&& bp == produce_one_row
            &&& (*bs)@ == (*schema)@
        },
        LogicalPlan::Limit { n, input } => {
            &&& b matches LogicalPlan::Limit { n: bn, input: bi }
            &&& bn == n
            &&& plan_equiv(*input, *bi, bind)
        },
        LogicalPlan::Skip { n, input } => {
            &&& b matches LogicalPlan::Skip { n: bn, input: bi }
            &&& bn == n
            &&& plan_equiv(*input, *bi, bind)
        },
        LogicalPlan::Repartition { input, partitioning_scheme } => {
            &&& b matches LogicalPlan::Repartition { input: bi, partitioning_scheme: bps }
            &&& plan_equiv(*input, *bi, bind)
            &&& (match partitioning_scheme {
                Partitioning::RoundRobinBatch(n) => bps matches Partitioning::RoundRobinBatch(bn)
                    && bn == n,
                Partitioning::Hash(es, n) => bps matches Partitioning::Hash(bes, bn)
                    && exprs_equiv(es@, bes@) && bn == n,
            })
        },
        LogicalPlan::CreateExternalTable { name: _ } => false,
        LogicalPlan::Explain { verbose: _, plan: _ } => false,
        LogicalPlan::Extension { node } => match node {
            ExtensionNode::ClusterSend(cs) => {
                &&& b matches LogicalPlan::Extension { node: bn }
                &&& bn matches ExtensionNode::ClusterSend(bcs)
                &&& plan_equiv(*cs.input, *bcs.input, bind)
                &&& crate::snapshot::snapshot_lists_view(bcs.snapshots@)
                    == crate::snapshot::snapshot_lists_view(cs.snapshots@)
            },
            ExtensionNode::ClusterAggregateTopK(tk) => {
                &&& b matches LogicalPlan::Extension { node: bn }
                &&& bn matches ExtensionNode::ClusterAggregateTopK(btk)
                &&& btk.limit == tk.limit
                &&& plan_equiv(*tk.input, *btk.input, bind)
                &&& exprs_equiv(tk.group_expr@, btk.group_expr@)
                &&& exprs_equiv(tk.aggregate_expr@, btk.aggregate_expr@)
                &&& btk.order_by@ == tk.order_by@
                &&& (*btk.schema)@ == (*tk.schema)@
                &&& crate::snapshot::snapshot_lists_view(btk.snapshots@)
                    == crate::snapshot::snapshot_lists_view(tk.snapshots@)
            },
            ExtensionNode::Other(_) => false,
        },
    }
}

/// [`plan_equiv`], lifted over the input lists of a union node.
pub open spec fn plans_equiv(
    a: Seq<Arc<LogicalPlan>>,
    b: Seq<Arc<LogicalPlan>>,
    bind: Option<Binding>,
) -> bool
    decreases a,
{
    &&& a.len() == b.len()
    &&& forall|i: int| 0 <= i < a.len() ==> plan_equiv(*(#[trigger] a[i]), *b[i], bind)
}

/// Spec-level content of a shared plan node.
pub open spec fn arc_plan(a: Arc<LogicalPlan>) -> LogicalPlan {
    *a
}

/// Spec-level content of a shared snapshot plan node.
pub open spec fn arc_splan(s: Arc<SerializedLogicalPlan>) -> SerializedLogicalPlan {
    *s
}

/// Law: plan round trip. Serializing an executable plan and materializing
/// the snapshot for any worker binding yields a shape-equivalent plan whose
/// scan sources are bound by exactly that binding. Stated over the
/// correspondence relations the serializer and materializer ensure: `a`
/// with the open binding is what the serializer establishes for the
/// original plan, `b` with the pinned binding is what the materializer
/// establishes for the rebuilt plan, both against the same snapshot `s`.
pub proof fn lemma_plan_round_trip(
    a: LogicalPlan,
    s: SerializedLogicalPlan,
    b: LogicalPlan,
    bind: Option<Binding>,
)
    requires
        plan_corr(a, s, Option::None),
        plan_corr(b, s, bind),
    ensures
        plan_equiv(a, b, bind),
    decreases a,
{
    match a {
        LogicalPlan::Projection { expr, input, schema: _ } => {
            match b {
                LogicalPlan::Projection { expr: be, input: bi, schema: _ } => {
                    lemma_exprs_round_trip(expr@, s->Projection_expr@, be@);
                    lemma_plan_round_trip(arc_plan(input), arc_splan(s->Projection_input), arc_plan(bi), bind);
                },
                _ => {},
            }
        },
        LogicalPlan::Filter { predicate, input } => {
            match b {
                LogicalPlan::Filter { predicate: bp, input: bi } => {
                    lemma_expr_round_trip(predicate, s->Filter_predicate, bp);
                    lemma_plan_round_trip(arc_plan(input), arc_splan(s->Filter_input), arc_plan(bi), bind);
                },
                _ => {},
            }
        },
        LogicalPlan::Aggregate { input, group_expr, aggr_expr, schema: _ } => {
            match b {
                LogicalPlan::Aggregate { input: bi, group_expr: bg, aggr_expr: ba, schema: _ } => {
                    lemma_plan_round_trip(arc_plan(input), arc_splan(s->Aggregate_input), arc_plan(bi), bind);
                    lemma_exprs_round_trip(group_expr@, s->Aggregate_group_expr@, bg@);
                    lemma_exprs_round_trip(aggr_expr@, s->Aggregate_aggr_expr@, ba@);
                },
                _ => {},
            }
        },
        LogicalPlan::Sort { expr, input } => {
            match b {
                LogicalPlan::Sort { expr: be, input: bi } => {
                    lemma_exprs_round_trip(expr@, s->Sort_expr@, be@);
                    lemma_plan_round_trip(arc_plan(input), arc_splan(s->Sort_input), arc_plan(bi), bind);
                },
                _ => {},
            }
        },
        LogicalPlan::Union { inputs, schema: _, alias: _ } => {
            match b {
                LogicalPlan::Union { inputs: bi, schema: _, alias: _ } => {
                    lemma_plans_round_trip(inputs@, s->Union_inputs@, bi@, bind);
                },
                _ => {},
            }
        },
        LogicalPlan::Join { left, right, on: _, join_type: _, schema: _ } => {
            match b {
                LogicalPlan::Join { left: bl, right: br, on: _, join_type: _, schema: _ } => {
                    lemma_plan_round_trip(arc_plan(left), arc_splan(s->Join_left), arc_plan(bl), bind);
                    lemma_plan_round_trip(arc_plan(right), arc_splan(s->Join_right), arc_plan(br), bind);
                },
                _ => {},
            }
        },
        LogicalPlan::TableScan {
            table_name: _,
            source: _,
            projection: _,
            projected_schema: _,
            filters,
            alias: _,
            limit: _,
        } => {
            match b {
                LogicalPlan::TableScan {
                    table_name: _,
                    source: _,
                    projection: _,
                    projected_schema: _,
                    filters: bf,
                    alias: _,
                    limit: _,
                } => {
                    lemma_exprs_round_trip(filters@, s->TableScan_filters@, bf@);
                },
                _ => {},
            }
        },
        LogicalPlan::Limit { n: _, input } => {
            match b {
                LogicalPlan::Limit { n: _, input: bi } => {
                    lemma_plan_round_trip(arc_plan(input), arc_splan(s->Limit_input), arc_plan(bi), bind);
                },
                _ => {},
            }
        },
        LogicalPlan::Skip { n: _, input } => {
            match b {
                LogicalPlan::Skip { n: _, input: bi } => {
                    lemma_plan_round_trip(arc_plan(input), arc_splan(s->Skip_input), arc_plan(bi), bind);
                },
                _ => {},
            }
        },
        LogicalPlan::Repartition { input, partitioning_scheme } => {
            match b {
                LogicalPlan::Repartition { input: bi, partitioning_scheme: bps } => {
                    lemma_plan_round_trip(arc_plan(input), arc_splan(s->Repartition_input), arc_plan(bi), bind);
                    match partitioning_scheme {
                        Partitioning::Hash(es, _) => {
                            match bps {
                                Partitioning::Hash(bes, _) => {
                                    lemma_exprs_round_trip(
                                        es@,
                                        s->Repartition_partitioning_scheme->Hash_0@,
                                        bes@,
                                    );
                                },
                                _ => {},
                            }
                        },
                        _ => {},
                    }
                },
                _ => {},
            }
        },
        LogicalPlan::Extension { node } => {
            match node {
                ExtensionNode::ClusterSend(cs) => {
                    match b {
                        LogicalPlan::Extension { node: bn } => {
                            match bn {
                                ExtensionNode::ClusterSend(bcs) => {
                                    lemma_plan_round_trip(arc_plan(cs.input), arc_splan(s->ClusterSend_input), arc_plan(bcs.input), bind);
                                },
                                _ => {},
                            }
                        },
                        _ => {},
                    }
                },
                ExtensionNode::ClusterAggregateTopK(tk) => {
                    match b {
                        LogicalPlan::Extension { node: bn } => {
                            match bn {
                                ExtensionNode::ClusterAggregateTopK(btk) => {
                                    lemma_plan_round_trip(arc_plan(tk.input), arc_splan(s->ClusterAggregateTopK_input), arc_plan(btk.input), bind);
                                    lemma_exprs_round_trip(
                                        tk.group_expr@,
                                        s->ClusterAggregateTopK_group_expr@,
                                        btk.group_expr@,
                                    );
                                    lemma_exprs_round_trip(
                                        tk.aggregate_expr@,
                                        s->ClusterAggregateTopK_aggregate_expr@,
                                        btk.aggregate_expr@,
                                    );
                                },
                                _ => {},
                            }
                        },
                        _ => {},
                    }
                },
                ExtensionNode::Other(_) => {},
            }
        },
        _ => {},
    }
}

/// [`lemma_plan_round_trip`], lifted over the input lists of a union node.
pub proof fn lemma_plans_round_trip(
    a: Seq<Arc<LogicalPlan>>,
    s: Seq<Arc<SerializedLogicalPlan>>,
    b: Seq<Arc<LogicalPlan>>,
    bind: Option<Binding>,
)
    requires
        plans_corr(a, s, Option::None),
        plans_corr(b, s, bind),
    ensures
        plans_equiv(a, b, bind),
    decreases a,
{
    assert forall|i: int| 0 <= i < a.len() implies plan_equiv(*(#[trigger] a[i]), *b[i], bind) by {
        lemma_plan_round_trip(arc_plan(a[i]), arc_splan(s[i]), arc_plan(b[i]), bind);
    }
}

/// Membership distributes over sequence concatenation.
proof fn lemma_concat_contains<T>(a: Seq<T>, b: Seq<T>, f: T)
    ensures
        (a + b).contains(f) <==> a.contains(f) || b.contains(f),
{
    if (a + b).contains(f) {
        let i = choose|i: int| 0 <= i < (a + b).len() && (a + b)[i] == f;
        if i < a.len() {
            assert(a[i] == f);
        } else {
            assert(b[i - a.len()] == f);
        }
    }
    if a.contains(f) {
        let i = choose|i: int| 0 <= i < a.len() && a[i] == f;
        assert((a + b)[i] == f);
    }
    if b.contains(f) {
        let i = choose|i: int| 0 <= i < b.len() && b[i] == f;
        assert((a + b)[a.len() + i] == f);
    }
}

/// Law: partition monotonicity, one partition. Everything a partition
/// contributes under a set it also contributes under any superset.
proof fn lemma_partition_files_mono(
    p: PartitionSnapshotV,
    ids1: Set<u64>,
    ids2: Set<u64>,
    f: Seq<char>,
)
    requires
        ids1.subset_of(ids2),
        partition_files_under(p, ids1).contains(f),
    ensures
        partition_files_under(p, ids2).contains(f),
{
}

/// Law: partition monotonicity over a partition list.
proof fn lemma_partitions_files_mono(
    ps: Seq<PartitionSnapshotV>,
    ids1: Set<u64>,
    ids2: Set<u64>,
    f: Seq<char>,
)
    requires
        ids1.subset_of(ids2),
        partitions_files(ps, ids1).contains(f),
    ensures
        partitions_files(ps, ids2).contains(f),
    decreases ps.len(),
{
    if ps.len() > 0 {
        lemma_concat_contains(
            partitions_files(ps.drop_last(), ids1),
            partition_files_under(ps.last(), ids1),
            f,
        );
        if partitions_files(ps.drop_last(), ids1).contains(f) {
            lemma_partitions_files_mono(ps.drop_last(), ids1, ids2, f);
        } else {
            lemma_partition_files_mono(ps.last(), ids1, ids2, f);
        }
        lemma_concat_contains(
            partitions_files(ps.drop_last(), ids2),
            partition_files_under(ps.last(), ids2),
            f,
        );
    }
}

/// Law: partition monotonicity. For partition-id sets S inside S', every
/// file resolved under S is also resolved under S' for the same snapshot
/// list.
pub proof fn lemma_files_monotone(
    xs: Seq<IndexSnapshotV>,
    ids1: Set<u64>,
    ids2: Set<u64>,
    f: Seq<char>,
)
    requires
        ids1.subset_of(ids2),
        snapshots_files(xs, ids1).contains(f),
    ensures
        snapshots_files(xs, ids2).contains(f),
    decreases xs.len(),
{
    if xs.len() > 0 {
        lemma_concat_contains(
            snapshots_files(xs.drop_last(), ids1),
            partitions_files(xs.last().partitions, ids1),
            f,
        );
        if snapshots_files(xs.drop_last(), ids1).contains(f) {
            lemma_files_monotone(xs.drop_last(), ids1, ids2, f);
        } else {
            lemma_partitions_files_mono(xs.last().partitions, ids1, ids2, f);
        }
        lemma_concat_contains(
            snapshots_files(xs.drop_last(), ids2),
            partitions_files(xs.last().partitions, ids2),
            f,
        );
    }
}

/// Law: empty restriction. An empty assigned-partition-id set resolves to
/// an empty file list, whatever the snapshot list holds.
pub proof fn lemma_empty_restriction(xs: Seq<IndexSnapshotV>)
    ensures
        snapshots_files(xs, Set::<u64>::empty()) == Seq::<Seq<char>>::empty(),
    decreases xs.len(),
{
    if xs.len() > 0 {
        lemma_empty_restriction(xs.drop_last());
        lemma_partitions_empty_restriction(xs.last().partitions);
        assert(snapshots_files(xs, Set::<u64>::empty()) =~= Seq::<Seq<char>>::empty());
    }
}

/// [`lemma_empty_restriction`] over one partition list.
proof fn lemma_partitions_empty_restriction(ps: Seq<PartitionSnapshotV>)
    ensures
        partitions_files(ps, Set::<u64>::empty()) == Seq::<Seq<char>>::empty(),
    decreases ps.len(),
{
    if ps.len() > 0 {
        lemma_partitions_empty_restriction(ps.drop_last());
        assert(partitions_files(ps, Set::<u64>::empty()) =~= Seq::<Seq<char>>::empty());
    }
}

} // verus!
