//! Point-in-time capture of the scan surface a plan may read.
//!
//! An [`IndexSnapshot`] freezes, for one table+index pair, every partition the
//! planner knew at plan-build time, and each [`PartitionSnapshot`] freezes the
//! chunks committed under that partition at the moment of one consistent
//! metadata read. Snapshots are never updated in place after capture, so
//! later ingestion cannot retroactively change a plan already in flight.

use vstd::prelude::*;

use crate::metastore::{
    Chunk, ChunkV, IdRow, IdRowV, Index, IndexV, Partition, PartitionV, Table, TablePath,
    TablePathV, full_table_name,
};

verus! {

/// One partition's row plus the chunks merged under it at capture time.
#[derive(Clone, Debug)]
pub struct PartitionSnapshot {
    pub partition: IdRow<Partition>,
    pub chunks: Vec<IdRow<Chunk>>,
}

/// Mathematical value of a [`PartitionSnapshot`].
pub struct PartitionSnapshotV {
    pub partition: IdRowV<PartitionV>,
    pub chunks: Seq<IdRowV<ChunkV>>,
}

impl View for PartitionSnapshot {
    type V = PartitionSnapshotV;

    open spec fn view(&self) -> PartitionSnapshotV {
        PartitionSnapshotV {
            partition: self.partition@,
            chunks: self.chunks@.map_values(|c: IdRow<Chunk>| c@),
        }
    }
}

impl PartitionSnapshot {
    pub fn partition(&self) -> (r: &IdRow<Partition>)
        ensures
            *r == self.partition,
    {
        &self.partition
    }

    pub fn chunks(&self) -> (r: &Vec<IdRow<Chunk>>)
        ensures
            *r == self.chunks,
    {
        &self.chunks
    }

    pub fn duplicate(&self) -> (r: PartitionSnapshot)
        ensures
            r@ == self@,
    {
        let mut chunks: Vec<IdRow<Chunk>> = Vec::new();
        let mut i: usize = 0;
        while i < self.chunks.len()
            invariant
                i <= self.chunks.len(),
                chunks@.len() == i as nat,
                forall|j: int| 0 <= j < i ==> chunks@[j]@ == self.chunks@[j]@,
            decreases self.chunks.len() - i,
        {
            let c = &self.chunks[i];
            chunks.push(IdRow { id: c.id, row: c.row.duplicate() });
            i += 1;
        }
        let r = PartitionSnapshot {
            partition: IdRow { id: self.partition.id, row: self.partition.row.duplicate() },
            chunks,
        };
        proof {
            assert(r@.chunks =~= self@.chunks);
        }
        r
    }
}

/// The full scan surface of one table+index pair: the table's logical path,
/// the index's metadata row, an optional explicit sort-column list, and every
/// partition of the index known to the planner at plan-build time.
#[derive(Clone, Debug)]
pub struct IndexSnapshot {
    pub table_path: TablePath,
    pub index: IdRow<Index>,
    pub partitions: Vec<PartitionSnapshot>,
    pub sort_on: Option<Vec<String>>,
}

/// Mathematical value of an [`IndexSnapshot`].
pub struct IndexSnapshotV {
    pub table_path: TablePathV,
    pub index: IdRowV<IndexV>,
    pub partitions: Seq<PartitionSnapshotV>,
    pub sort_on: Option<Seq<Seq<char>>>,
}

impl View for IndexSnapshot {
    type V = IndexSnapshotV;

    open spec fn view(&self) -> IndexSnapshotV {
        IndexSnapshotV {
            table_path: self.table_path@,
            index: self.index@,
            partitions: self.partitions@.map_values(|p: PartitionSnapshot| p@),
            sort_on: match self.sort_on {
                Option::Some(v) => Option::Some(v@.map_values(|s: String| s@)),
                Option::None => Option::None,
            },
        }
    }
}

impl IndexSnapshot {
    /// The full dotted name of the snapshot's table.
    pub fn table_name(&self) -> (r: String)
        ensures
            r@ == full_table_name(self@.table_path),
    {
        self.table_path.table_name()
    }

    pub fn table(&self) -> (r: &IdRow<Table>)
        ensures
            *r == self.table_path.table,
    {
        &self.table_path.table
    }

    pub fn index(&self) -> (r: &IdRow<Index>)
        ensures
            *r == self.index,
    {
        &self.index
    }

    pub fn partitions(&self) -> (r: &Vec<PartitionSnapshot>)
        ensures
            *r == self.partitions,
    {
        &self.partitions
    }

    pub fn sort_on(&self) -> (r: Option<&Vec<String>>)
        ensures
            match r {
                Option::Some(v) => self.sort_on == Option::Some(*v),
                Option::None => self.sort_on is None,
            },
    {
        self.sort_on.as_ref()
    }

    pub fn duplicate(&self) -> (r: IndexSnapshot)
        ensures
            r@ == self@,
    {
        let mut partitions: Vec<PartitionSnapshot> = Vec::new();
        let mut i: usize = 0;
        while i < self.partitions.len()
            invariant
                i <= self.partitions.len(),
                partitions@.len() == i as nat,
                forall|j: int| 0 <= j < i ==> partitions@[j]@ == self.partitions@[j]@,
            decreases self.partitions.len() - i,
        {
            partitions.push(self.partitions[i].duplicate());
            i += 1;
        }
        let sort_on: Option<Vec<String>> = match &self.sort_on {
            Option::Some(v) => {
                let mut cols: Vec<String> = Vec::new();
                let mut i: usize = 0;
                while i < v.len()
                    invariant
                        i <= v.len(),
                        cols@.len() == i as nat,
                        forall|j: int| 0 <= j < i ==> cols@[j]@ == v@[j]@,
                    decreases v.len() - i,
                {
                    cols.push(v[i].clone());
                    i += 1;
                }
                Option::Some(cols)
            },
            Option::None => Option::None,
        };
        let r = IndexSnapshot {
            table_path: self.table_path.duplicate(),
            index: IdRow { id: self.index.id, row: self.index.row.duplicate() },
            partitions,
            sort_on,
        };
        proof {
            assert(r@.partitions =~= self@.partitions);
            if self.sort_on is Some {
                assert(r@.sort_on->0 =~= self@.sort_on->0);
            }
        }
        r
    }
}

/// The ordered collection of every [`IndexSnapshot`] referenced anywhere in
/// a serialized plan.
#[derive(Clone, Debug)]
pub struct SchemaSnapshot {
    pub index_snapshots: Vec<IndexSnapshot>,
}

/// Mathematical value of a [`SchemaSnapshot`].
pub struct SchemaSnapshotV {
    pub index_snapshots: Seq<IndexSnapshotV>,
}

impl View for SchemaSnapshot {
    type V = SchemaSnapshotV;

    open spec fn view(&self) -> SchemaSnapshotV {
        SchemaSnapshotV {
            index_snapshots: self.index_snapshots@.map_values(|x: IndexSnapshot| x@),
        }
    }
}

/// View of one table's snapshot list.
pub open spec fn snapshot_list_view(w: Vec<IndexSnapshot>) -> Seq<IndexSnapshotV> {
    w@.map_values(|x: IndexSnapshot| x@)
}

/// View of a per-table snapshot list, as the distributed operators carry it.
pub open spec fn snapshot_lists_view(v: Seq<Vec<IndexSnapshot>>) -> Seq<Seq<IndexSnapshotV>> {
    v.map_values(|w: Vec<IndexSnapshot>| snapshot_list_view(w))
}

/// Copies a per-table snapshot list, preserving its value.
pub fn duplicate_snapshot_lists(v: &Vec<Vec<IndexSnapshot>>) -> (r: Vec<Vec<IndexSnapshot>>)
    ensures
        snapshot_lists_view(r@) == snapshot_lists_view(v@),
{
    let mut out: Vec<Vec<IndexSnapshot>> = Vec::new();
    let mut i: usize = 0;
    while i < v.len()
        invariant
            i <= v.len(),
            out@.len() == i as nat,
            forall|j: int| 0 <= j < i ==> #[trigger] snapshot_list_view(out@[j])
                == snapshot_list_view(v@[j]),
        decreases v.len() - i,
    {
        let w = &v[i];
        let mut inner: Vec<IndexSnapshot> = Vec::new();
        let mut k: usize = 0;
        while k < w.len()
            invariant
                k <= w.len(),
                inner@.len() == k as nat,
                forall|j: int| 0 <= j < k ==> inner@[j]@ == w@[j]@,
            decreases w.len() - k,
        {
            inner.push(w[k].duplicate());
            k += 1;
        }
        proof {
            assert(snapshot_list_view(inner) =~= snapshot_list_view(*w));
        }
        out.push(inner);
        i += 1;
    }
    proof {
        assert(snapshot_lists_view(out@) =~= snapshot_lists_view(v@));
    }
    out
}

} // verus!
