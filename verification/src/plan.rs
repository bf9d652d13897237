//! The executable relational plan model.
//!
//! A closed variant tree of relational operators over a closed variant tree
//! of expressions. The table-scan variant's table-access handle is the one
//! capability-typed field: given a remote-to-local file mapping and a
//! partition-id restriction it binds itself into a worker-local queryable
//! table. The two distributed operators ride in a generic extension slot and
//! are recovered from it by the serializer.

use vstd::prelude::*;
use std::collections::HashSet;
use std::sync::Arc;

use crate::snapshot::{IndexSnapshot, IndexSnapshotV};
use crate::udfs::{AggregateUDF, ScalarUDF};

verus! {

/// Target type of a cast expression.
#[derive(Clone, Copy, PartialEq, Eq, Structural, Debug)]
pub enum DataType {
    Boolean,
    Int64,
    UInt64,
    Utf8,
    Timestamp,
    Binary,
}

/// Binary expression operator.
#[derive(Clone, Copy, PartialEq, Eq, Structural, Debug)]
pub enum Operator {
    Eq,
    NotEq,
    Lt,
    LtEq,
    Gt,
    GtEq,
    Plus,
    Minus,
    Multiply,
    Divide,
    Modulo,
    And,
    Or,
    Like,
    NotLike,
}

/// Join kind of a join operator.
#[derive(Clone, Copy, PartialEq, Eq, Structural, Debug)]
pub enum JoinType {
    Inner,
    Left,
    Right,
    Full,
    Semi,
    Anti,
}

/// Built-in scalar function of the engine (not user-defined).
#[derive(Clone, Copy, PartialEq, Eq, Structural, Debug)]
pub enum BuiltinScalarFunction {
    Abs,
    Lower,
    Upper,
    Concat,
    Length,
}

/// Built-in aggregate function of the engine (not user-defined).
#[derive(Clone, Copy, PartialEq, Eq, Structural, Debug)]
pub enum AggregateFunction {
    Count,
    Sum,
    Min,
    Max,
    Avg,
}

/// A literal value inside an expression.
#[derive(Clone, Debug)]
pub enum ScalarValue {
    Null,
    Boolean(Option<bool>),
    Int64(Option<i64>),
    UInt64(Option<u64>),
    Utf8(Option<String>),
}

/// Mathematical value of a [`ScalarValue`].
pub enum ScalarValueV {
    Null,
    Boolean(Option<bool>),
    Int64(Option<i64>),
    UInt64(Option<u64>),
    Utf8(Option<Seq<char>>),
}

impl View for ScalarValue {
    type V = ScalarValueV;

    open spec fn view(&self) -> ScalarValueV {
        match self {
            ScalarValue::Null => ScalarValueV::Null,
            ScalarValue::Boolean(b) => ScalarValueV::Boolean(*b),
            ScalarValue::Int64(v) => ScalarValueV::Int64(*v),
            ScalarValue::UInt64(v) => ScalarValueV::UInt64(*v),
            ScalarValue::Utf8(s) => ScalarValueV::Utf8(
                match s {
                    Option::Some(s) => Option::Some(s@),
                    Option::None => Option::None,
                },
            ),
        }
    }
}

impl ScalarValue {
    pub fn duplicate(&self) -> (r: ScalarValue)
        ensures
            r@ == self@,
    {
        match self {
            ScalarValue::Null => ScalarValue::Null,
            ScalarValue::Boolean(b) => ScalarValue::Boolean(*b),
            ScalarValue::Int64(v) => ScalarValue::Int64(*v),
            ScalarValue::UInt64(v) => ScalarValue::UInt64(*v),
            ScalarValue::Utf8(s) => ScalarValue::Utf8(duplicate_opt_string(s)),
        }
    }
}

/// One column of a plan schema.
#[derive(Clone, Debug)]
pub struct Field {
    pub name: String,
    pub data_type: DataType,
    pub nullable: bool,
}

/// Mathematical value of a [`Field`].
pub struct FieldV {
    pub name: Seq<char>,
    pub data_type: DataType,
    pub nullable: bool,
}

impl View for Field {
    type V = FieldV;

    open spec fn view(&self) -> FieldV {
        FieldV { name: self.name@, data_type: self.data_type, nullable: self.nullable }
    }
}

/// The output schema of a plan node, shared by reference across nodes.
#[derive(Clone, Debug)]
pub struct PlanSchema {
    pub fields: Vec<Field>,
}

/// Mathematical value of a [`PlanSchema`].
pub struct PlanSchemaV {
    pub fields: Seq<FieldV>,
}

impl View for PlanSchema {
    type V = PlanSchemaV;

    open spec fn view(&self) -> PlanSchemaV {
        PlanSchemaV { fields: self.fields@.map_values(|f: Field| f@) }
    }
}

/// One sort key of the distributed top-K operator: the index of the sorted
/// column among the aggregates, with direction and null placement.
#[derive(Clone, Copy, PartialEq, Eq, Structural, Debug)]
pub struct SortColumn {
    pub agg_index: usize,
    pub asc: bool,
    pub nulls_first: bool,
}

/// View of an optional string.
pub open spec fn opt_str_view(o: Option<String>) -> Option<Seq<char>> {
    match o {
        Option::Some(s) => Option::Some(s@),
        Option::None => Option::None,
    }
}

/// View of a remote-to-local file-name mapping.
pub open spec fn name_map_view(s: Seq<(String, String)>) -> Seq<(Seq<char>, Seq<char>)> {
    s.map_values(|p: (String, String)| (p.0@, p.1@))
}

/// Copies a remote-to-local file-name mapping, preserving its value.
pub fn duplicate_name_map(v: &Vec<(String, String)>) -> (r: Vec<(String, String)>)
    ensures
        r@ == v@,
{
    let mut out: Vec<(String, String)> = Vec::new();
    let mut i: usize = 0;
    while i < v.len()
        invariant
            i <= v.len(),
            out@.len() == i as nat,
            forall|j: int| 0 <= j < i ==> out@[j] == v@[j],
        decreases v.len() - i,
    {
        let p = &v[i];
        out.push((p.0.clone(), p.1.clone()));
        i += 1;
    }
    proof {
        assert(out@ =~= v@);
    }
    out
}

/// Copies an optional string, preserving its value.
pub fn duplicate_opt_string(v: &Option<String>) -> (r: Option<String>)
    ensures
        r == *v,
{
    match v {
        Option::Some(s) => Option::Some(s.clone()),
        Option::None => Option::None,
    }
}

/// Copies a string list, preserving its value.
pub fn duplicate_string_list(v: &Vec<String>) -> (r: Vec<String>)
    ensures
        r@ == v@,
{
    let mut out: Vec<String> = Vec::new();
    let mut i: usize = 0;
    while i < v.len()
        invariant
            i <= v.len(),
            out@.len() == i as nat,
            forall|j: int| 0 <= j < i ==> out@[j] == v@[j],
        decreases v.len() - i,
    {
        out.push(v[i].clone());
        i += 1;
    }
    proof {
        assert(out@ =~= v@);
    }
    out
}

/// Copies an optional column-index projection, preserving its value.
pub fn duplicate_projection(v: &Option<Vec<usize>>) -> (r: Option<Vec<usize>>)
    ensures
        match r {
            Option::Some(w) => v matches Option::Some(u) && w@ == u@,
            Option::None => v is None,
        },
{
    match v {
        Option::Some(u) => {
            let mut out: Vec<usize> = Vec::new();
            let mut i: usize = 0;
            while i < u.len()
                invariant
                    i <= u.len(),
                    out@.len() == i as nat,
                    forall|j: int| 0 <= j < i ==> out@[j] == u@[j],
                decreases u.len() - i,
            {
                out.push(u[i]);
                i += 1;
            }
            proof {
                assert(out@ =~= u@);
            }
            Option::Some(out)
        },
        Option::None => Option::None,
    }
}

/// Copies a sort-column list, preserving its value.
pub fn duplicate_sort_columns(v: &Vec<SortColumn>) -> (r: Vec<SortColumn>)
    ensures
        r@ == v@,
{
    let mut out: Vec<SortColumn> = Vec::new();
    let mut i: usize = 0;
    while i < v.len()
        invariant
            i <= v.len(),
            out@.len() == i as nat,
            forall|j: int| 0 <= j < i ==> out@[j] == v@[j],
        decreases v.len() - i,
    {
        out.push(v[i]);
        i += 1;
    }
    proof {
        assert(out@ =~= v@);
    }
    out
}

/// Relies on `HashSet::clone`: the clone holds exactly the elements of the
/// original set.
#[verifier::external_body]
pub fn clone_id_set(s: &HashSet<u64>) -> (r: HashSet<u64>)
    ensures
        r@ == s@,
{
    s.clone()
}

/// The recognized concrete worker-table kind: the table-access capability.
/// It carries the index snapshot it scans and, once bound for a worker, the
/// remote-to-local file mapping and the partition-id restriction it may use.
#[derive(Debug)]
pub struct CubeTable {
    pub index_snapshot: IndexSnapshot,
    pub remote_to_local_names: Vec<(String, String)>,
    pub worker_partition_ids: HashSet<u64>,
}

/// Mathematical value of a [`CubeTable`].
pub struct CubeTableV {
    pub index_snapshot: IndexSnapshotV,
    pub remote_to_local_names: Seq<(Seq<char>, Seq<char>)>,
    pub worker_partition_ids: Set<u64>,
}

impl View for CubeTable {
    type V = CubeTableV;

    open spec fn view(&self) -> CubeTableV {
        CubeTableV {
            index_snapshot: self.index_snapshot@,
            remote_to_local_names: name_map_view(self.remote_to_local_names@),
            worker_partition_ids: self.worker_partition_ids@,
        }
    }
}

impl CubeTable {
    /// Binds the table for one worker: the same index snapshot, restricted to
    /// the worker's partition ids and resolving remote files through the
    /// worker's local paths.
    pub fn to_worker_table(
        &self,
        remote_to_local_names: Vec<(String, String)>,
        worker_partition_ids: HashSet<u64>,
    ) -> (r: CubeTable)
        ensures
            r@.index_snapshot == self@.index_snapshot,
            r@.remote_to_local_names == name_map_view(remote_to_local_names@),
            r@.worker_partition_ids == worker_partition_ids@,
    {
        CubeTable {
            index_snapshot: self.index_snapshot.duplicate(),
            remote_to_local_names,
            worker_partition_ids,
        }
    }

    pub fn duplicate(&self) -> (r: CubeTable)
        ensures
            r@ == self@,
    {
        CubeTable {
            index_snapshot: self.index_snapshot.duplicate(),
            remote_to_local_names: duplicate_name_map(&self.remote_to_local_names),
            worker_partition_ids: clone_id_set(&self.worker_partition_ids),
        }
    }
}

/// An expression node of the executable plan.
#[derive(Debug)]
pub enum Expr {
    Alias(Box<Expr>, String),
    Column(String, Option<String>),
    ScalarVariable(Vec<String>),
    Literal(ScalarValue),
    BinaryExpr { left: Box<Expr>, op: Operator, right: Box<Expr> },
    Not(Box<Expr>),
    IsNotNull(Box<Expr>),
    IsNull(Box<Expr>),
    Negative(Box<Expr>),
    Between { expr: Box<Expr>, negated: bool, low: Box<Expr>, high: Box<Expr> },
    Case {
        expr: Option<Box<Expr>>,
        when_then_expr: Vec<(Box<Expr>, Box<Expr>)>,
        else_expr: Option<Box<Expr>>,
    },
    Cast { expr: Box<Expr>, data_type: DataType },
    TryCast { expr: Box<Expr>, data_type: DataType },
    Sort { expr: Box<Expr>, asc: bool, nulls_first: bool },
    ScalarFunction { fun: BuiltinScalarFunction, args: Vec<Expr> },
    ScalarUDF { fun: Arc<ScalarUDF>, args: Vec<Expr> },
    AggregateFunction { fun: AggregateFunction, args: Vec<Expr>, distinct: bool },
    AggregateUDF { fun: Arc<AggregateUDF>, args: Vec<Expr> },
    InList { expr: Box<Expr>, list: Vec<Expr>, negated: bool },
    Wildcard,
}

/// The table source of a scan node: either the one recognized worker-table
/// kind, or a source of some other concrete kind (carrying only its type
/// name), which this layer must reject at serialize time.
#[derive(Debug)]
pub enum TableSource {
    CubeTable(CubeTable),
    Other(String),
}

/// A relational operator node of the executable plan.
#[derive(Debug)]
pub enum LogicalPlan {
    Projection { expr: Vec<Expr>, input: Arc<LogicalPlan>, schema: Arc<PlanSchema> },
    Filter { predicate: Expr, input: Arc<LogicalPlan> },
    Aggregate {
        input: Arc<LogicalPlan>,
        group_expr: Vec<Expr>,
        aggr_expr: Vec<Expr>,
        schema: Arc<PlanSchema>,
    },
    Sort { expr: Vec<Expr>, input: Arc<LogicalPlan> },
    Union { inputs: Vec<Arc<LogicalPlan>>, schema: Arc<PlanSchema>, alias: Option<String> },
    Join {
        left: Arc<LogicalPlan>,
        right: Arc<LogicalPlan>,
        on: Vec<(String, String)>,
        join_type: JoinType,
        schema: Arc<PlanSchema>,
    },
    TableScan {
        table_name: String,
        source: TableSource,
        projection: Option<Vec<usize>>,
        projected_schema: Arc<PlanSchema>,
        filters: Vec<Expr>,
        alias: Option<String>,
        limit: Option<usize>,
    },
    EmptyRelation { produce_one_row: bool, schema: Arc<PlanSchema> },
    Limit { n: usize, input: Arc<LogicalPlan> },
    Skip { n: usize, input: Arc<LogicalPlan> },
    Repartition { input: Arc<LogicalPlan>, partitioning_scheme: Partitioning },
    CreateExternalTable { name: String },
    Explain { verbose: bool, plan: Arc<LogicalPlan> },
    Extension { node: ExtensionNode },
}

/// Partitioning scheme of a repartition operator.
#[derive(Debug)]
pub enum Partitioning {
    RoundRobinBatch(usize),
    Hash(Vec<Expr>, usize),
}

/// An extension operator riding in the plan's generic extension slot: one of
/// the two known distributed operators, or an extension of some other kind
/// (carrying only its type name), which this layer must reject.
#[derive(Debug)]
pub enum ExtensionNode {
    ClusterSend(ClusterSendNode),
    ClusterAggregateTopK(ClusterAggregateTopK),
    Other(String),
}

/// The cluster-dispatch operator: packages a sub-plan together with, for
/// every table it references, the full cluster-wide scan surface.
#[derive(Debug)]
pub struct ClusterSendNode {
    pub input: Arc<LogicalPlan>,
    pub snapshots: Vec<Vec<IndexSnapshot>>,
}

impl ClusterSendNode {
    /// The operator's generic plan-node representation.
    pub fn into_plan(self) -> (r: LogicalPlan)
        ensures
            r == (LogicalPlan::Extension { node: ExtensionNode::ClusterSend(self) }),
    {
        LogicalPlan::Extension { node: ExtensionNode::ClusterSend(self) }
    }
}

/// The distributed top-K operator: cluster dispatch specialized with the
/// group/aggregate expressions, sort-column spec and result-row limit needed
/// to push per-partition top-K and a final merge down to workers.
#[derive(Debug)]
pub struct ClusterAggregateTopK {
    pub limit: usize,
    pub input: Arc<LogicalPlan>,
    pub group_expr: Vec<Expr>,
    pub aggregate_expr: Vec<Expr>,
    pub order_by: Vec<SortColumn>,
    pub schema: Arc<PlanSchema>,
    pub snapshots: Vec<Vec<IndexSnapshot>>,
}

impl ClusterAggregateTopK {
    /// The operator's generic plan-node representation.
    pub fn into_plan(self) -> (r: LogicalPlan)
        ensures
            r == (LogicalPlan::Extension { node: ExtensionNode::ClusterAggregateTopK(self) }),
    {
        LogicalPlan::Extension { node: ExtensionNode::ClusterAggregateTopK(self) }
    }
}

} // verus!
