use std::collections::HashSet;
use std::sync::Arc;

use cubestore::metastore::{IdRow, Index, Schema, Table, TablePath};
use cubestore::plan::{CubeTable, LogicalPlan, PlanSchema, TableSource};
use cubestore::serialized_plan::SerializedPlan;
use cubestore::snapshot::IndexSnapshot;

fn empty_schema() -> Arc<PlanSchema> {
    Arc::new(PlanSchema { fields: Vec::new() })
}

fn scan(table_name: &str) -> LogicalPlan {
    let snapshot = IndexSnapshot {
        table_path: TablePath {
            table: IdRow::new(1, Table { table_name: "t".to_string() }),
            schema: IdRow::new(1, Schema { schema_name: "s".to_string() }),
        },
        index: IdRow::new(1, Index { table_id: 1, index_name: "default".to_string() }),
        partitions: vec![],
        sort_on: None,
    };
    LogicalPlan::TableScan {
        table_name: table_name.to_string(),
        source: TableSource::CubeTable(CubeTable {
            index_snapshot: snapshot,
            remote_to_local_names: Vec::new(),
            worker_partition_ids: HashSet::new(),
        }),
        projection: None,
        projected_schema: empty_schema(),
        filters: Vec::new(),
        alias: None,
        limit: None,
    }
}

#[test]
fn a_catalog_only_plan_is_not_a_data_query() {
    let plan = LogicalPlan::Filter {
        predicate: cubestore::plan::Expr::Wildcard,
        input: Arc::new(scan("information_schema.tables")),
    };
    assert!(!SerializedPlan::is_data_select_query(&plan));
}

#[test]
fn a_scan_outside_the_catalog_is_a_data_query() {
    let plan = LogicalPlan::Limit { n: 10, input: Arc::new(scan("public.orders")) };
    assert!(SerializedPlan::is_data_select_query(&plan));
}

#[test]
fn a_plan_without_scans_is_not_a_data_query() {
    let plan = LogicalPlan::EmptyRelation { produce_one_row: true, schema: empty_schema() };
    assert!(!SerializedPlan::is_data_select_query(&plan));
}

#[test]
fn one_data_scan_among_catalog_scans_decides() {
    let plan = LogicalPlan::Union {
        inputs: vec![
            Arc::new(scan("information_schema.tables")),
            Arc::new(scan("information_schema.columns")),
            Arc::new(scan("public.orders")),
        ],
        schema: empty_schema(),
        alias: None,
    };
    assert!(SerializedPlan::is_data_select_query(&plan));
}

#[test]
fn the_catalog_check_uses_only_the_first_segment() {
    assert!(!SerializedPlan::is_data_select_query(&scan("information_schema")));
    assert!(!SerializedPlan::is_data_select_query(&scan("information_schema.")));
    assert!(!SerializedPlan::is_data_select_query(&scan("information_schema.a.b")));
    assert!(SerializedPlan::is_data_select_query(&scan("information_schema2.tables")));
    assert!(SerializedPlan::is_data_select_query(&scan("info.tables")));
    assert!(SerializedPlan::is_data_select_query(&scan("")));
}
