//! Metadata rows consumed from the metadata store.
//!
//! The metadata store supplies table, index, partition and chunk rows, plus
//! table-path records. This layer treats each as an opaque immutable value
//! record exposing an identity and the physical file name (nullable for
//! partitions that hold no materialized file yet).

use vstd::prelude::*;

verus! {

/// A metadata row paired with its stable identity in the metadata store.
#[derive(Clone, Debug)]
pub struct IdRow<T> {
    pub id: u64,
    pub row: T,
}

/// Mathematical value of an [`IdRow`].
pub struct IdRowV<V> {
    pub id: u64,
    pub row: V,
}

impl<T: View> View for IdRow<T> {
    type V = IdRowV<T::V>;

    open spec fn view(&self) -> IdRowV<T::V> {
        IdRowV { id: self.id, row: self.row@ }
    }
}

impl<T> IdRow<T> {
    pub fn new(id: u64, row: T) -> (r: IdRow<T>)
        ensures
            r.id == id,
            r.row == row,
    {
        IdRow { id, row }
    }

    pub fn get_id(&self) -> (r: u64)
        ensures
            r == self.id,
    {
        self.id
    }

    pub fn get_row(&self) -> (r: &T)
        ensures
            *r == self.row,
    {
        &self.row
    }
}

/// A schema (database namespace) row: tables live under a schema name.
#[derive(Clone, Debug)]
pub struct Schema {
    pub schema_name: String,
}

/// Mathematical value of a [`Schema`].
pub struct SchemaV {
    pub schema_name: Seq<char>,
}

impl View for Schema {
    type V = SchemaV;

    open spec fn view(&self) -> SchemaV {
        SchemaV { schema_name: self.schema_name@ }
    }
}

impl Schema {
    pub fn duplicate(&self) -> (r: Schema)
        ensures
            r@ == self@,
    {
        Schema { schema_name: self.schema_name.clone() }
    }
}

/// A table row.
#[derive(Clone, Debug)]
pub struct Table {
    pub table_name: String,
}

/// Mathematical value of a [`Table`].
pub struct TableV {
    pub table_name: Seq<char>,
}

impl View for Table {
    type V = TableV;

    open spec fn view(&self) -> TableV {
        TableV { table_name: self.table_name@ }
    }
}

impl Table {
    pub fn duplicate(&self) -> (r: Table)
        ensures
            r@ == self@,
    {
        Table { table_name: self.table_name.clone() }
    }
}

/// A table's logical path: the table row together with its schema row.
#[derive(Clone, Debug)]
pub struct TablePath {
    pub table: IdRow<Table>,
    pub schema: IdRow<Schema>,
}

/// Mathematical value of a [`TablePath`].
pub struct TablePathV {
    pub table: IdRowV<TableV>,
    pub schema: IdRowV<SchemaV>,
}

impl View for TablePath {
    type V = TablePathV;

    open spec fn view(&self) -> TablePathV {
        TablePathV { table: self.table@, schema: self.schema@ }
    }
}

/// The dotted full name of a table path: `<schema>.<table>`.
pub open spec fn full_table_name(tp: TablePathV) -> Seq<char> {
    tp.schema.row.schema_name + "."@ + tp.table.row.table_name
}

impl TablePath {
    /// The table's full dotted name, `<schema>.<table>`.
    pub fn table_name(&self) -> (r: String)
        ensures
            r@ == full_table_name(self@),
    {
        let mut s = self.schema.row.schema_name.clone();
        s.append(".");
        s.append(self.table.row.table_name.as_str());
        s
    }

    pub fn duplicate(&self) -> (r: TablePath)
        ensures
            r@ == self@,
    {
        TablePath {
            table: IdRow { id: self.table.id, row: self.table.row.duplicate() },
            schema: IdRow { id: self.schema.id, row: self.schema.row.duplicate() },
        }
    }
}

/// An index row: one physically stored, sorted representation of a table.
#[derive(Clone, Debug)]
pub struct Index {
    pub table_id: u64,
    pub index_name: String,
}

/// Mathematical value of an [`Index`].
pub struct IndexV {
    pub table_id: u64,
    pub index_name: Seq<char>,
}

impl View for Index {
    type V = IndexV;

    open spec fn view(&self) -> IndexV {
        IndexV { table_id: self.table_id, index_name: self.index_name@ }
    }
}

impl Index {
    pub fn duplicate(&self) -> (r: Index)
        ensures
            r@ == self@,
    {
        Index { table_id: self.table_id, index_name: self.index_name.clone() }
    }
}

/// A partition row. A partition that holds no materialized data yet has no
/// file of its own; chunks layered under it always do.
#[derive(Clone, Debug)]
pub struct Partition {
    pub main_table_file: Option<String>,
}

/// Mathematical value of a [`Partition`].
pub struct PartitionV {
    pub main_table_file: Option<Seq<char>>,
}

impl View for Partition {
    type V = PartitionV;

    open spec fn view(&self) -> PartitionV {
        PartitionV {
            main_table_file: match self.main_table_file {
                Option::Some(f) => Option::Some(f@),
                Option::None => Option::None,
            },
        }
    }
}

impl Partition {
    /// The physical file of the partition itself, if it has one.
    pub fn get_full_name(&self) -> (r: Option<String>)
        ensures
            match r {
                Option::Some(f) => self@.main_table_file == Option::Some(f@),
                Option::None => self@.main_table_file is None,
            },
    {
        match &self.main_table_file {
            Option::Some(f) => Option::Some(f.clone()),
            Option::None => Option::None,
        }
    }

    pub fn duplicate(&self) -> (r: Partition)
        ensures
            r@ == self@,
    {
        Partition {
            main_table_file: match &self.main_table_file {
                Option::Some(f) => Option::Some(f.clone()),
                Option::None => Option::None,
            },
        }
    }
}

/// A chunk row: a unit of newly-ingested data merged under a partition.
#[derive(Clone, Debug)]
pub struct Chunk {
    pub file_name: String,
}

/// Mathematical value of a [`Chunk`].
pub struct ChunkV {
    pub file_name: Seq<char>,
}

impl View for Chunk {
    type V = ChunkV;

    open spec fn view(&self) -> ChunkV {
        ChunkV { file_name: self.file_name@ }
    }
}

impl Chunk {
    /// The physical file of the chunk; chunks always have one.
    pub fn get_full_name(&self) -> (r: String)
        ensures
            r@ == self@.file_name,
    {
        self.file_name.clone()
    }

    pub fn duplicate(&self) -> (r: Chunk)
        ensures
            r@ == self@,
    {
        Chunk { file_name: self.file_name.clone() }
    }
}

} // verus!
