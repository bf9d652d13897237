use std::collections::HashSet;
use std::sync::Arc;

use cubestore::metastore::{Chunk, IdRow, Index, Partition, Schema, Table, TablePath};
use cubestore::plan::{CubeTable, LogicalPlan, PlanSchema, TableSource};
use cubestore::serialized_plan::SerializedPlan;
use cubestore::snapshot::{IndexSnapshot, PartitionSnapshot};

fn table_path(schema: &str, table: &str) -> TablePath {
    TablePath {
        table: IdRow::new(1, Table { table_name: table.to_string() }),
        schema: IdRow::new(1, Schema { schema_name: schema.to_string() }),
    }
}

fn partition(id: u64, file: Option<&str>, chunk_files: &[&str]) -> PartitionSnapshot {
    PartitionSnapshot {
        partition: IdRow::new(id, Partition { main_table_file: file.map(|f| f.to_string()) }),
        chunks: chunk_files
            .iter()
            .enumerate()
            .map(|(i, f)| IdRow::new(100 + i as u64, Chunk { file_name: f.to_string() }))
            .collect(),
    }
}

fn index_snapshot(partitions: Vec<PartitionSnapshot>) -> IndexSnapshot {
    IndexSnapshot {
        table_path: table_path("public", "orders"),
        index: IdRow::new(1, Index { table_id: 1, index_name: "default".to_string() }),
        partitions,
        sort_on: None,
    }
}

fn scan_over(snapshot: &IndexSnapshot) -> LogicalPlan {
    LogicalPlan::TableScan {
        table_name: "public.orders".to_string(),
        source: TableSource::CubeTable(CubeTable {
            index_snapshot: snapshot.duplicate(),
            remote_to_local_names: Vec::new(),
            worker_partition_ids: HashSet::new(),
        }),
        projection: None,
        projected_schema: Arc::new(PlanSchema { fields: Vec::new() }),
        filters: Vec::new(),
        alias: None,
        limit: None,
    }
}

fn filter_over_scan(snapshot: &IndexSnapshot) -> LogicalPlan {
    LogicalPlan::Filter {
        predicate: cubestore::plan::Expr::Wildcard,
        input: Arc::new(scan_over(snapshot)),
    }
}

#[test]
fn restricting_to_one_partition_yields_its_files_exactly() {
    let snapshot = index_snapshot(vec![
        partition(1, Some("part_1.dat"), &["chunk_1.dat"]),
        partition(2, Some("part_2.dat"), &["chunk_2.dat"]),
    ]);
    let plan = filter_over_scan(&snapshot);
    let sp = SerializedPlan::try_new(plan, vec![snapshot]).unwrap();
    let worker = sp.with_partition_id_to_execute(HashSet::from([2]));
    let files = worker.files_to_download();
    assert_eq!(files, vec!["part_2.dat".to_string(), "chunk_2.dat".to_string()]);
}

#[test]
fn files_are_not_deduplicated_across_index_snapshots() {
    let first = index_snapshot(vec![partition(7, Some("part_7.dat"), &["chunk_7.dat"])]);
    let second = index_snapshot(vec![partition(7, Some("part_7.dat"), &["chunk_7.dat"])]);
    let plan = scan_over(&first);
    let sp = SerializedPlan::try_new(plan, vec![first, second]).unwrap();
    let worker = sp.with_partition_id_to_execute(HashSet::from([7]));
    let files = worker.files_to_download();
    assert_eq!(
        files,
        vec![
            "part_7.dat".to_string(),
            "chunk_7.dat".to_string(),
            "part_7.dat".to_string(),
            "chunk_7.dat".to_string(),
        ]
    );
}

#[test]
fn empty_restriction_yields_no_files() {
    let snapshot = index_snapshot(vec![
        partition(1, Some("part_1.dat"), &["chunk_1.dat"]),
        partition(2, Some("part_2.dat"), &["chunk_2.dat"]),
    ]);
    let plan = filter_over_scan(&snapshot);
    let sp = SerializedPlan::try_new(plan, vec![snapshot]).unwrap();
    assert!(sp.files_to_download().is_empty());
    let worker = sp.with_partition_id_to_execute(HashSet::new());
    assert!(worker.files_to_download().is_empty());
}

#[test]
fn files_grow_monotonically_with_the_partition_set() {
    let snapshot = index_snapshot(vec![
        partition(1, Some("part_1.dat"), &["chunk_1.dat"]),
        partition(2, None, &["chunk_2.dat", "chunk_3.dat"]),
    ]);
    let plan = scan_over(&snapshot);
    let sp = SerializedPlan::try_new(plan, vec![snapshot]).unwrap();
    let small = sp.with_partition_id_to_execute(HashSet::from([2])).files_to_download();
    let large = sp
        .with_partition_id_to_execute(HashSet::from([1, 2]))
        .files_to_download();
    for f in &small {
        assert!(large.contains(f));
    }
    assert_eq!(small, vec!["chunk_2.dat".to_string(), "chunk_3.dat".to_string()]);
}

#[test]
fn a_partition_without_a_file_contributes_only_its_chunks() {
    let snapshot = index_snapshot(vec![partition(5, None, &["chunk_a.dat", "chunk_b.dat"])]);
    let plan = scan_over(&snapshot);
    let sp = SerializedPlan::try_new(plan, vec![snapshot]).unwrap();
    let worker = sp.with_partition_id_to_execute(HashSet::from([5]));
    assert_eq!(
        worker.files_to_download(),
        vec!["chunk_a.dat".to_string(), "chunk_b.dat".to_string()]
    );
}

#[test]
fn deriving_a_worker_copy_shares_the_plan_and_schema() {
    let snapshot = index_snapshot(vec![partition(1, Some("part_1.dat"), &[])]);
    let plan = scan_over(&snapshot);
    let sp = SerializedPlan::try_new(plan, vec![snapshot]).unwrap();
    let worker = sp.with_partition_id_to_execute(HashSet::from([1]));
    assert!(Arc::ptr_eq(&sp.logical_plan, &worker.logical_plan));
    assert!(Arc::ptr_eq(&sp.schema_snapshot, &worker.schema_snapshot));
    assert!(sp.partition_ids_to_execute().is_empty());
    let ids = worker.partition_ids_to_execute();
    assert_eq!(ids.len(), 1);
    assert!(ids.contains(&1));
}

#[test]
fn snapshot_getters_expose_the_captured_rows() {
    let snapshot = index_snapshot(vec![partition(3, Some("part_3.dat"), &["chunk_3.dat"])]);
    assert_eq!(snapshot.table_name(), "public.orders".to_string());
    assert_eq!(snapshot.table().get_row().table_name, "orders".to_string());
    assert_eq!(snapshot.index().get_row().index_name, "default".to_string());
    assert!(snapshot.sort_on().is_none());
    let parts = snapshot.partitions();
    assert_eq!(parts.len(), 1);
    let p = &parts[0];
    assert_eq!(p.partition().get_id(), 3);
    assert_eq!(
        p.partition().get_row().get_full_name(),
        Some("part_3.dat".to_string())
    );
    assert_eq!(p.chunks().len(), 1);
    assert_eq!(p.chunks()[0].get_row().get_full_name(), "chunk_3.dat".to_string());
}
