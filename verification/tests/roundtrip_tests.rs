use std::collections::HashSet;
use std::sync::Arc;

use cubestore::error::CubeError;
use cubestore::metastore::{IdRow, Index, Partition, Schema, Table, TablePath};
use cubestore::plan::{
    CubeTable, DataType, Expr, ExtensionNode, LogicalPlan, Operator, PlanSchema, ScalarValue,
    TableSource,
};
use cubestore::serialized_expr::{SerializedExpr, serialized_expr};
use cubestore::serialized_plan::SerializedPlan;
use cubestore::snapshot::{IndexSnapshot, PartitionSnapshot};
use cubestore::udfs::{
    CubeAggregateUDFKind, CubeScalarUDFKind, aggregate_kind_by_name, aggregate_udf_by_kind,
    scalar_kind_by_name, scalar_udf_by_kind,
};

fn snapshot() -> IndexSnapshot {
    IndexSnapshot {
        table_path: TablePath {
            table: IdRow::new(2, Table { table_name: "orders".to_string() }),
            schema: IdRow::new(1, Schema { schema_name: "public".to_string() }),
        },
        index: IdRow::new(3, Index { table_id: 2, index_name: "default".to_string() }),
        partitions: vec![PartitionSnapshot {
            partition: IdRow::new(1, Partition { main_table_file: Some("part_1.dat".to_string()) }),
            chunks: vec![],
        }],
        sort_on: Some(vec!["a".to_string()]),
    }
}

fn schema_ab() -> Arc<PlanSchema> {
    Arc::new(PlanSchema {
        fields: vec![
            cubestore::plan::Field {
                name: "a".to_string(),
                data_type: DataType::Int64,
                nullable: false,
            },
            cubestore::plan::Field {
                name: "b".to_string(),
                data_type: DataType::Utf8,
                nullable: true,
            },
        ],
    })
}

fn filter_over_scan() -> LogicalPlan {
    let predicate = Expr::BinaryExpr {
        left: Box::new(Expr::Column("a".to_string(), None)),
        op: Operator::Eq,
        right: Box::new(Expr::Literal(ScalarValue::Int64(Some(42)))),
    };
    let scan = LogicalPlan::TableScan {
        table_name: "public.orders".to_string(),
        source: TableSource::CubeTable(CubeTable {
            index_snapshot: snapshot(),
            remote_to_local_names: Vec::new(),
            worker_partition_ids: HashSet::new(),
        }),
        projection: Some(vec![0, 1]),
        projected_schema: schema_ab(),
        filters: Vec::new(),
        alias: Some("o".to_string()),
        limit: Some(1000),
    };
    LogicalPlan::Filter { predicate, input: Arc::new(scan) }
}

#[test]
fn a_filter_over_scan_round_trips_with_rebinding() {
    let sp = SerializedPlan::try_new(filter_over_scan(), vec![snapshot()]).unwrap();
    let worker = sp.with_partition_id_to_execute(HashSet::from([1]));
    let file_map = vec![("part_1.dat".to_string(), "/local/part_1.dat".to_string())];
    let rebuilt = worker.logical_plan(&file_map).unwrap();
    match rebuilt {
        LogicalPlan::Filter { predicate, input } => {
            match predicate {
                Expr::BinaryExpr { left, op, right } => {
                    assert!(matches!(*left, Expr::Column(ref c, None) if c == "a"));
                    assert_eq!(op, Operator::Eq);
                    assert!(matches!(*right, Expr::Literal(ScalarValue::Int64(Some(42)))));
                },
                other => panic!("unexpected predicate: {:?}", std::mem::discriminant(&other)),
            }
            match &*input {
                LogicalPlan::TableScan {
                    table_name,
                    source,
                    projection,
                    projected_schema,
                    filters,
                    alias,
                    limit,
                } => {
                    assert_eq!(table_name, "public.orders");
                    assert_eq!(projection.as_deref(), Some(&[0usize, 1][..]));
                    assert_eq!(projected_schema.fields.len(), 2);
                    assert_eq!(projected_schema.fields[0].name, "a");
                    assert!(filters.is_empty());
                    assert_eq!(alias.as_deref(), Some("o"));
                    assert_eq!(*limit, Some(1000));
                    match source {
                        TableSource::CubeTable(t) => {
                            assert_eq!(t.index_snapshot.table_name(), "public.orders");
                            assert_eq!(t.remote_to_local_names, file_map);
                            assert!(t.worker_partition_ids.contains(&1));
                            assert_eq!(t.worker_partition_ids.len(), 1);
                        },
                        TableSource::Other(_) => panic!("scan lost its worker table"),
                    }
                },
                _ => panic!("input is not the scan"),
            }
        },
        _ => panic!("rebuilt plan is not a filter"),
    }
}

#[test]
fn every_scalar_function_kind_round_trips_by_name() {
    let kinds = [
        CubeScalarUDFKind::HllCardinality,
        CubeScalarUDFKind::Coalesce,
        CubeScalarUDFKind::Now,
        CubeScalarUDFKind::UnixTimestamp,
    ];
    for kind in kinds {
        let descriptor = scalar_udf_by_kind(kind);
        assert_eq!(scalar_kind_by_name(&descriptor.name), Some(kind));
    }
    let merge = aggregate_udf_by_kind(CubeAggregateUDFKind::MergeHll);
    assert_eq!(aggregate_kind_by_name(&merge.name), Some(CubeAggregateUDFKind::MergeHll));
    assert_eq!(aggregate_kind_by_name("MEDIAN"), None);
    assert_eq!(scalar_kind_by_name("cardinality"), None);
}

#[test]
fn a_udf_call_keeps_its_name_and_argument_count() {
    let call = Expr::ScalarUDF {
        fun: Arc::new(scalar_udf_by_kind(CubeScalarUDFKind::HllCardinality)),
        args: vec![Expr::Column("hll".to_string(), None)],
    };
    let serialized = serialized_expr(&call).unwrap();
    assert!(matches!(
        serialized,
        SerializedExpr::ScalarUDF { fun: CubeScalarUDFKind::HllCardinality, ref args } if args.len() == 1
    ));
    let rebuilt = serialized.expr();
    match rebuilt {
        Expr::ScalarUDF { fun, args } => {
            assert_eq!(fun.name, "CARDINALITY");
            assert_eq!(args.len(), 1);
            assert!(matches!(args[0], Expr::Column(ref c, None) if c == "hll"));
        },
        _ => panic!("rebuilt call is not a scalar function call"),
    }
}

#[test]
fn an_unregistered_function_name_is_fatal() {
    let call = Expr::ScalarUDF {
        fun: Arc::new(cubestore::udfs::ScalarUDF { name: "NOPE".to_string() }),
        args: vec![],
    };
    let err = serialized_expr(&call).unwrap_err();
    match &err {
        CubeError::UnknownFunction(name) => assert_eq!(name, "NOPE"),
        _ => panic!("wrong error kind"),
    }
    assert_eq!(err.message(), "unknown function: NOPE");
    let plan = LogicalPlan::Filter { predicate: call, input: Arc::new(plain_scan()) };
    assert!(matches!(
        SerializedPlan::try_new(plan, vec![]),
        Err(CubeError::UnknownFunction(_))
    ));
}

fn plain_scan() -> LogicalPlan {
    LogicalPlan::TableScan {
        table_name: "public.orders".to_string(),
        source: TableSource::CubeTable(CubeTable {
            index_snapshot: snapshot(),
            remote_to_local_names: Vec::new(),
            worker_partition_ids: HashSet::new(),
        }),
        projection: None,
        projected_schema: schema_ab(),
        filters: Vec::new(),
        alias: None,
        limit: None,
    }
}

#[test]
fn unsupported_plan_kinds_are_fatal() {
    let explain = LogicalPlan::Explain { verbose: false, plan: Arc::new(plain_scan()) };
    assert!(matches!(
        SerializedPlan::try_new(explain, vec![]),
        Err(CubeError::UnsupportedPlan)
    ));
    let create = LogicalPlan::CreateExternalTable { name: "t".to_string() };
    assert!(matches!(
        SerializedPlan::try_new(create, vec![]),
        Err(CubeError::UnsupportedPlan)
    ));
}

#[test]
fn an_unrecognized_extension_operator_is_fatal() {
    let plan = LogicalPlan::Extension { node: ExtensionNode::Other("rolling_window".to_string()) };
    assert!(matches!(
        SerializedPlan::try_new(plan, vec![]),
        Err(CubeError::UnrecognizedExtension)
    ));
}

#[test]
fn an_unexpected_table_source_is_fatal() {
    let plan = LogicalPlan::TableScan {
        table_name: "public.orders".to_string(),
        source: TableSource::Other("MemTable".to_string()),
        projection: None,
        projected_schema: schema_ab(),
        filters: Vec::new(),
        alias: None,
        limit: None,
    };
    let err = SerializedPlan::try_new(plan, vec![]).unwrap_err();
    assert!(matches!(err, CubeError::UnexpectedTableSource));
    assert_eq!(err.message(), "unexpected table source");
}

#[test]
fn distributed_operators_survive_the_round_trip() {
    let send = cubestore::plan::ClusterSendNode {
        input: Arc::new(plain_scan()),
        snapshots: vec![vec![snapshot()]],
    };
    let plan = send.into_plan();
    let sp = SerializedPlan::try_new(plan, vec![snapshot()]).unwrap();
    let worker = sp.with_partition_id_to_execute(HashSet::from([1]));
    let rebuilt = worker.logical_plan(&Vec::new()).unwrap();
    match rebuilt {
        LogicalPlan::Extension { node: ExtensionNode::ClusterSend(cs) } => {
            assert_eq!(cs.snapshots.len(), 1);
            assert_eq!(cs.snapshots[0].len(), 1);
            assert_eq!(cs.snapshots[0][0].table_name(), "public.orders");
            assert!(matches!(&*cs.input, LogicalPlan::TableScan { .. }));
        },
        _ => panic!("cluster dispatch did not survive"),
    }
}

#[test]
fn a_top_k_operator_survives_the_round_trip() {
    let topk = cubestore::plan::ClusterAggregateTopK {
        limit: 5,
        input: Arc::new(plain_scan()),
        group_expr: vec![Expr::Column("a".to_string(), None)],
        aggregate_expr: vec![Expr::AggregateFunction {
            fun: cubestore::plan::AggregateFunction::Sum,
            args: vec![Expr::Column("b".to_string(), None)],
            distinct: false,
        }],
        order_by: vec![cubestore::plan::SortColumn { agg_index: 0, asc: false, nulls_first: false }],
        schema: schema_ab(),
        snapshots: vec![vec![snapshot()]],
    };
    let plan = topk.into_plan();
    let sp = SerializedPlan::try_new(plan, vec![snapshot()]).unwrap();
    let rebuilt = sp.logical_plan(&Vec::new()).unwrap();
    match rebuilt {
        LogicalPlan::Extension { node: ExtensionNode::ClusterAggregateTopK(tk) } => {
            assert_eq!(tk.limit, 5);
            assert_eq!(tk.group_expr.len(), 1);
            assert_eq!(tk.aggregate_expr.len(), 1);
            assert_eq!(tk.order_by.len(), 1);
            assert_eq!(tk.order_by[0].agg_index, 0);
            assert!(!tk.order_by[0].asc);
        },
        _ => panic!("top-k operator did not survive"),
    }
}
