use std::sync::Arc;

use cubestore::plan::{
    AggregateFunction, BuiltinScalarFunction, DataType, Expr, JoinType, LogicalPlan, Operator,
    Partitioning, PlanSchema, ScalarValue,
};
use cubestore::serialized_plan::SerializedPlan;
use cubestore::udfs::{
    CubeAggregateUDFKind, CubeScalarUDFKind, aggregate_udf_by_kind, scalar_udf_by_kind,
};

fn schema() -> Arc<PlanSchema> {
    Arc::new(PlanSchema {
        fields: vec![cubestore::plan::Field {
            name: "a".to_string(),
            data_type: DataType::Boolean,
            nullable: true,
        }],
    })
}

fn col(name: &str) -> Expr {
    Expr::Column(name.to_string(), None)
}

/// One expression of every supported shape.
fn all_expression_shapes() -> Vec<Expr> {
    vec![
        Expr::Alias(Box::new(col("a")), "x".to_string()),
        Expr::Column("b".to_string(), Some("t".to_string())),
        Expr::ScalarVariable(vec!["v".to_string(), "w".to_string()]),
        Expr::Literal(ScalarValue::Null),
        Expr::Literal(ScalarValue::Boolean(Some(true))),
        Expr::Literal(ScalarValue::Int64(Some(-7))),
        Expr::Literal(ScalarValue::UInt64(None)),
        Expr::Literal(ScalarValue::Utf8(Some("s".to_string()))),
        Expr::BinaryExpr {
            left: Box::new(col("a")),
            op: Operator::And,
            right: Box::new(col("b")),
        },
        Expr::Not(Box::new(col("a"))),
        Expr::IsNotNull(Box::new(col("a"))),
        Expr::IsNull(Box::new(col("a"))),
        Expr::Negative(Box::new(col("a"))),
        Expr::Between {
            expr: Box::new(col("a")),
            negated: true,
            low: Box::new(Expr::Literal(ScalarValue::Int64(Some(1)))),
            high: Box::new(Expr::Literal(ScalarValue::Int64(Some(9)))),
        },
        Expr::Case {
            expr: Some(Box::new(col("a"))),
            when_then_expr: vec![
                (Box::new(col("w1")), Box::new(col("t1"))),
                (Box::new(col("w2")), Box::new(col("t2"))),
            ],
            else_expr: Some(Box::new(col("e"))),
        },
        Expr::Cast { expr: Box::new(col("a")), data_type: DataType::Utf8 },
        Expr::TryCast { expr: Box::new(col("a")), data_type: DataType::Int64 },
        Expr::Sort { expr: Box::new(col("a")), asc: false, nulls_first: true },
        Expr::ScalarFunction { fun: BuiltinScalarFunction::Lower, args: vec![col("a")] },
        Expr::ScalarUDF {
            fun: Arc::new(scalar_udf_by_kind(CubeScalarUDFKind::Coalesce)),
            args: vec![col("a"), col("b")],
        },
        Expr::AggregateFunction {
            fun: AggregateFunction::Max,
            args: vec![col("a")],
            distinct: true,
        },
        Expr::AggregateUDF {
            fun: Arc::new(aggregate_udf_by_kind(CubeAggregateUDFKind::MergeHll)),
            args: vec![col("h")],
        },
        Expr::InList {
            expr: Box::new(col("a")),
            list: vec![
                Expr::Literal(ScalarValue::Int64(Some(1))),
                Expr::Literal(ScalarValue::Int64(Some(2))),
            ],
            negated: false,
        },
        Expr::Wildcard,
    ]
}

/// A scan-free plan exercising every operator kind the snapshot form keeps.
fn all_operator_shapes() -> LogicalPlan {
    let leaf = || LogicalPlan::EmptyRelation { produce_one_row: false, schema: schema() };
    let aggregate = LogicalPlan::Aggregate {
        input: Arc::new(leaf()),
        group_expr: vec![col("g")],
        aggr_expr: vec![Expr::AggregateFunction {
            fun: AggregateFunction::Count,
            args: vec![col("a")],
            distinct: false,
        }],
        schema: schema(),
    };
    let join = LogicalPlan::Join {
        left: Arc::new(leaf()),
        right: Arc::new(leaf()),
        on: vec![("a".to_string(), "b".to_string())],
        join_type: JoinType::Left,
        schema: schema(),
    };
    let repartition = LogicalPlan::Repartition {
        input: Arc::new(LogicalPlan::Skip { n: 3, input: Arc::new(LogicalPlan::Limit {
            n: 10,
            input: Arc::new(leaf()),
        }) }),
        partitioning_scheme: Partitioning::Hash(vec![col("a")], 4),
    };
    let filter = LogicalPlan::Filter {
        predicate: Expr::BinaryExpr {
            left: Box::new(col("a")),
            op: Operator::GtEq,
            right: Box::new(Expr::Literal(ScalarValue::Int64(Some(0)))),
        },
        input: Arc::new(leaf()),
    };
    let union = LogicalPlan::Union {
        inputs: vec![Arc::new(aggregate), Arc::new(join), Arc::new(repartition), Arc::new(filter)],
        schema: schema(),
        alias: Some("u".to_string()),
    };
    let sort = LogicalPlan::Sort {
        expr: vec![Expr::Sort { expr: Box::new(col("a")), asc: true, nulls_first: false }],
        input: Arc::new(union),
    };
    LogicalPlan::Projection { expr: all_expression_shapes(), input: Arc::new(sort), schema: schema() }
}

#[test]
fn every_expression_and_operator_shape_round_trips_exactly() {
    let plan = all_operator_shapes();
    let expected = format!("{:?}", plan);
    let sp = SerializedPlan::try_new(plan, vec![]).unwrap();
    let rebuilt = sp.logical_plan(&Vec::new()).unwrap();
    assert_eq!(format!("{:?}", rebuilt), expected);
}

#[test]
fn a_round_tripped_plan_serializes_to_the_same_snapshot() {
    let plan = all_operator_shapes();
    let sp = SerializedPlan::try_new(plan, vec![]).unwrap();
    let first = format!("{:?}", sp.logical_plan);
    let rebuilt = sp.logical_plan(&Vec::new()).unwrap();
    let sp2 = SerializedPlan::try_new(rebuilt, vec![]).unwrap();
    assert_eq!(format!("{:?}", sp2.logical_plan), first);
}
