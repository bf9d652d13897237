//! The transferable unit: an immutable snapshot plan, its schema snapshot,
//! and a per-copy partition-id restriction.
//!
//! A [`SerializedPlan`] is built once on the coordinator. Deriving one copy
//! per worker shares the plan tree and schema snapshot by reference and
//! replaces only the partition-id set, so specialization is cheap whatever
//! the plan size. From the snapshot alone this module also answers which
//! physical files a worker must fetch before execution
//! ([`SerializedPlan::files_to_download`]) and whether a plan reads real
//! data rather than only system catalogs
//! ([`SerializedPlan::is_data_select_query`]).

use vstd::prelude::*;
use std::collections::HashSet;
use std::sync::Arc;

use crate::classifier::{has_data_scan, plan_has_data_scan};
use crate::error::CubeError;
use crate::metastore::{ChunkV, IdRowV};
use crate::plan::{LogicalPlan, clone_id_set};
use crate::serialized_logical_plan::{
    SerializedLogicalPlan, binding_of, plan_corr, plan_err_witness, plan_serializable,
    serialized_logical_plan,
};
use crate::snapshot::{IndexSnapshot, IndexSnapshotV, PartitionSnapshotV, SchemaSnapshot,
    snapshot_list_view};

verus! {

broadcast use vstd::std_specs::hash::group_hash_axioms;

/// The files of one partition snapshot, when its partition is selected: the
/// partition's own file if it has one, then every chunk's file, in order.
pub open spec fn partition_files(p: PartitionSnapshotV) -> Seq<Seq<char>> {
    (match p.partition.row.main_table_file {
        Option::Some(f) => seq![f],
        Option::None => Seq::<Seq<char>>::empty(),
    }) + p.chunks.map_values(|c: IdRowV<ChunkV>| c.row.file_name)
}

/// The files contributed by a partition snapshot under a partition-id
/// restriction: nothing unless the partition's id is in the set.
pub open spec fn partition_files_under(p: PartitionSnapshotV, ids: Set<u64>) -> Seq<Seq<char>> {
    if ids.contains(p.partition.id) {
        partition_files(p)
    } else {
        Seq::<Seq<char>>::empty()
    }
}

/// The files of a partition-snapshot list under a restriction, in snapshot
/// order.
pub open spec fn partitions_files(ps: Seq<PartitionSnapshotV>, ids: Set<u64>) -> Seq<Seq<char>>
    decreases ps.len(),
{
    if ps.len() == 0 {
        Seq::<Seq<char>>::empty()
    } else {
        partitions_files(ps.drop_last(), ids) + partition_files_under(ps.last(), ids)
    }
}

/// The files of an index-snapshot list under a restriction, in snapshot
/// order. Duplicate physical files under distinct index snapshots are kept:
/// the result is neither deduplicated nor sorted.
pub open spec fn snapshots_files(xs: Seq<IndexSnapshotV>, ids: Set<u64>) -> Seq<Seq<char>>
    decreases xs.len(),
{
    if xs.len() == 0 {
        Seq::<Seq<char>>::empty()
    } else {
        snapshots_files(xs.drop_last(), ids) + partitions_files(xs.last().partitions, ids)
    }
}

/// View of a file-name list.
pub open spec fn files_view(s: Seq<String>) -> Seq<Seq<char>> {
    s.map_values(|x: String| x@)
}

/// The transferable unit: a shared immutable snapshot plan tree, a shared
/// immutable schema snapshot, and this copy's partition-id restriction.
/// An empty restriction is what `try_new` produces, before any worker
/// specialization.
#[derive(Debug)]
pub struct SerializedPlan {
    pub logical_plan: Arc<SerializedLogicalPlan>,
    pub schema_snapshot: Arc<SchemaSnapshot>,
    pub partition_ids_to_execute: HashSet<u64>,
}

impl SerializedPlan {
    /// Serializes an executable plan together with the index snapshots read
    /// for it. Succeeds exactly on serializable plans
    /// ([`plan_serializable`]); no partial snapshot is ever produced. The
    /// result carries an empty partition-id restriction.
    pub fn try_new(plan: LogicalPlan, index_snapshots: Vec<IndexSnapshot>) -> (r: Result<
        SerializedPlan,
        CubeError,
    >)
        ensures
            r matches Result::Ok(sp) ==> plan_corr(plan, *sp.logical_plan, Option::None)
                && (*sp.schema_snapshot)@.index_snapshots == snapshot_list_view(index_snapshots)
                && sp.partition_ids_to_execute@ == Set::<u64>::empty(),
            r is Ok <==> plan_serializable(plan),
            r matches Result::Err(err) ==> plan_err_witness(plan, err),
    {
        let serialized = match serialized_logical_plan(&plan) {
            Result::Ok(s) => s,
            Result::Err(err) => return Result::Err(err),
        };
        Result::Ok(
            SerializedPlan {
                logical_plan: Arc::new(serialized),
                schema_snapshot: Arc::new(SchemaSnapshot { index_snapshots }),
                partition_ids_to_execute: HashSet::new(),
            },
        )
    }

    /// Derives the copy of this plan for one worker: the same shared plan
    /// tree and schema snapshot, restricted to the given partition ids.
    pub fn with_partition_id_to_execute(&self, partition_ids_to_execute: HashSet<u64>) -> (r: Self)
        ensures
            r.logical_plan == self.logical_plan,
            r.schema_snapshot == self.schema_snapshot,
            r.partition_ids_to_execute@ == partition_ids_to_execute@,
    {
        SerializedPlan {
            logical_plan: self.logical_plan.clone(),
            schema_snapshot: self.schema_snapshot.clone(),
            partition_ids_to_execute,
        }
    }

    /// The partition ids this copy may touch.
    pub fn partition_ids_to_execute(&self) -> (r: HashSet<u64>)
        ensures
            r@ == self.partition_ids_to_execute@,
    {
        clone_id_set(&self.partition_ids_to_execute)
    }

    /// Materializes this snapshot into an executable plan for one worker,
    /// binding every table scan to the worker's remote-to-local file mapping
    /// and to this copy's partition-id restriction.
    pub fn logical_plan(&self, remote_to_local_names: &Vec<(String, String)>) -> (r: Result<
        LogicalPlan,
        CubeError,
    >)
        ensures
            r is Ok,
            r matches Result::Ok(p) ==> plan_corr(
                p,
                *self.logical_plan,
                binding_of(remote_to_local_names@, self.partition_ids_to_execute@),
            ),
    {
        let ids = clone_id_set(&self.partition_ids_to_execute);
        (&*self.logical_plan).logical_plan(remote_to_local_names, &ids)
    }

    /// Every index snapshot referenced anywhere in the plan.
    pub fn index_snapshots(&self) -> (r: &Vec<IndexSnapshot>)
        ensures
            *r == (*self.schema_snapshot).index_snapshots,
    {
        &(&*self.schema_snapshot).index_snapshots
    }

    /// The physical files this copy's worker must fetch before execution:
    /// for every index snapshot, for every partition whose id is in the
    /// restriction, the partition's own file if it has one, then every
    /// chunk's file. Snapshot order; duplicates across index snapshots are
    /// kept.
    #[verifier::loop_isolation(false)]
    pub fn files_to_download(&self) -> (files: Vec<String>)
        ensures
            files_view(files@) == snapshots_files(
                (*self.schema_snapshot)@.index_snapshots,
                self.partition_ids_to_execute@,
            ),
    {
        let ghost all = (*self.schema_snapshot)@.index_snapshots;
        let ghost ids = self.partition_ids_to_execute@;
        let indexes = &(&*self.schema_snapshot).index_snapshots;
        let mut files: Vec<String> = Vec::new();
        let mut i: usize = 0;
        while i < indexes.len()
            invariant
                i <= indexes.len(),
                files_view(files@) == snapshots_files(all.take(i as int), ids),
            decreases indexes@.len() - i,
        {
            let index = &indexes[i];
            let ghost parts = index@.partitions;
            let mut j: usize = 0;
            while j < index.partitions.len()
                invariant
                    j <= index.partitions.len(),
                    files_view(files@) == snapshots_files(all.take(i as int), ids)
                        + partitions_files(parts.take(j as int), ids),
                decreases index.partitions@.len() - j,
            {
                let partition = &index.partitions[j];
                if self.partition_ids_to_execute.contains(&partition.partition.id) {
                    let ghost before = files@;
                    if let Option::Some(file) = partition.partition.row.get_full_name() {
                        files.push(file);
                    }
                    proof {
                        assert(files_view(files@) =~= files_view(before) + (
                        match partition@.partition.row.main_table_file {
                            Option::Some(f) => seq![f],
                            Option::None => Seq::<Seq<char>>::empty(),
                        }));
                    }
                    let ghost mid = files@;
                    let mut k: usize = 0;
                    while k < partition.chunks.len()
                        invariant
                            k <= partition.chunks.len(),
                            files_view(files@) == files_view(mid) + partition@.chunks.take(
                                k as int,
                            ).map_values(|c: IdRowV<ChunkV>| c.row.file_name),
                        decreases partition.chunks@.len() - k,
                    {
                        let ghost fv = files@;
                        files.push(partition.chunks[k].row.get_full_name());
                        proof {
                            assert(partition@.chunks.take(k + 1 as int).map_values(
                                |c: IdRowV<ChunkV>| c.row.file_name,
                            ) =~= partition@.chunks.take(k as int).map_values(
                                |c: IdRowV<ChunkV>| c.row.file_name,
                            ).push(partition@.chunks[k as int].row.file_name));
                            assert(files_view(files@) =~= files_view(fv).push(
                                partition@.chunks[k as int].row.file_name,
                            ));
                        }
                        k += 1;
                    }
                    proof {
                        assert(partition@.chunks.take(partition.chunks@.len() as int)
                            =~= partition@.chunks);
                        assert(files_view(files@) =~= files_view(before) + partition_files_under(
                            parts[j as int],
                            ids,
                        ));
                    }
                } else {
                    proof {
                        assert(partition_files_under(parts[j as int], ids)
                            =~= Seq::<Seq<char>>::empty());
                    }
                }
                proof {
                    assert(parts.take(j + 1 as int).drop_last() =~= parts.take(j as int));
                    assert(parts.take(j + 1 as int).last() == parts[j as int]);
                    assert(partitions_files(parts.take(j + 1 as int), ids) == partitions_files(
                        parts.take(j as int),
                        ids,
                    ) + partition_files_under(parts[j as int], ids));
                    assert(files_view(files@) =~= snapshots_files(all.take(i as int), ids)
                        + partitions_files(parts.take(j + 1 as int), ids));
                }
                j += 1;
            }
            proof {
                assert(parts.take(index.partitions@.len() as int) =~= parts);
                assert(all.take(i + 1 as int).drop_last() =~= all.take(i as int));
                assert(all.take(i + 1 as int).last() == all[i as int]);
                assert(all[i as int].partitions == parts);
                assert(files_view(files@) =~= snapshots_files(all.take(i + 1 as int), ids));
            }
            i += 1;
        }
        proof {
            assert(all.take(indexes@.len() as int) =~= all);
        }
        files
    }

    /// Whether a plan reads real data: true exactly when it holds a table
    /// scan whose name's first dot-delimited segment is not the catalog
    /// namespace. A plan with no table scan at all yields false.
    pub fn is_data_select_query(plan: &LogicalPlan) -> (r: bool)
        ensures
            r == plan_has_data_scan(*plan),
    {
        has_data_scan(plan)
    }
}

} // verus!
