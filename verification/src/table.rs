//! The table aggregate: an ordered sequence of named columns, all of the same
//! length. `add_column` appends a whole field, `add_row` appends one cell to
//! every column at once; both either commit completely or, on any refusal,
//! leave the table exactly as it was.

use vstd::prelude::*;

use crate::column::{Column, Value};

verus! {

/// Why a mutation was refused. Every refusal leaves the table unchanged.
#[derive(Clone, Copy, Debug, PartialEq, Eq, Structural)]
pub enum TableError {
    /// `add_column` on a non-empty table, with a column whose length differs
    /// from the table's row count.
    RowCountMismatch,
    /// `add_row` on a table that has no columns yet.
    SchemaRequired,
    /// `add_row` with a row whose length differs from the number of columns.
    ColumnCountMismatch,
    /// `add_row` with a cell whose kind differs from its target column's;
    /// `position` is the first offending index.
    TypeMismatch { position: usize },
}

/// A column-oriented table: named columns, index-aligned, every column
/// exactly `num_rows` cells long.
#[derive(Debug)]
pub struct DataFrame {
    /// One name per column, in insertion order. Names are not required to be
    /// unique; they are documentation, not a key.
    pub column_names: Vec<String>,
    /// The columns, index-aligned with `column_names`.
    pub column_data: Vec<Column>,
    /// The row count shared by every column.
    pub num_rows: usize,
}

impl DataFrame {
    /// The structural invariant: as many names as columns, and every column
    /// exactly `num_rows` cells long.
    pub open spec fn wf(self) -> bool {
        &&& self.column_names@.len() == self.column_data@.len()
        &&& forall|i: int|
            0 <= i < self.column_data@.len()
                ==> (#[trigger] self.column_data@[i])@.len() == self.num_rows
    }

    /// The number of columns.
    pub open spec fn column_count(self) -> nat {
        self.column_data@.len()
    }

    /// Whether `row` fits the schema position by position: each cell's kind
    /// agrees with its target column's kind.
    pub open spec fn row_kinds_match(self, row: Seq<Value>) -> bool {
        forall|i: int|
            0 <= i < row.len() ==> (#[trigger] row[i])@.kind() == self.column_data@[i].kind()
    }

    /// Whether `add_row` must accept `row`: there is a schema, the row is as
    /// wide as the table, and every cell is of its column's kind.
    pub open spec fn accepts_row(self, row: Seq<Value>) -> bool {
        &&& self.column_count() > 0
        &&& row.len() == self.column_count()
        &&& self.row_kinds_match(row)
    }

    /// A fresh table: no columns, no rows.
    pub fn new() -> (t: DataFrame)
        ensures
            t.wf(),
            t.column_names@ == Seq::<String>::empty(),
            t.column_data@ == Seq::<Column>::empty(),
            t.num_rows == 0,
    {
        DataFrame { column_names: Vec::new(), column_data: Vec::new(), num_rows: 0 }
    }

    /// Append a column. The first column ever added fixes the table's row
    /// count to its own length; after that, a new column must match the
    /// current row count exactly, or the call is refused and the table is
    /// left unchanged.
    pub fn add_column(&mut self, name: String, data: Column) -> (r: Result<(), TableError>)
        requires
            old(self).wf(),
        ensures
            final(self).wf(),
            r is Ok <==> old(self).column_count() == 0 || data@.len() == old(self).num_rows,
            r is Ok ==> {
                &&& final(self).column_names@ == old(self).column_names@.push(name)
                &&& final(self).column_data@ == old(self).column_data@.push(data)
                &&& final(self).num_rows == data@.len()
            },
            r is Err ==> {
                &&& *final(self) == *old(self)
                &&& r == Err::<(), TableError>(TableError::RowCountMismatch)
            },
    {
        let rows = data.num_rows();
        if self.column_names.len() == 0 || rows == self.num_rows {
            self.num_rows = rows;
            self.column_names.push(name);
            self.column_data.push(data);
            Ok(())
        } else {
            Err(TableError::RowCountMismatch)
        }
    }

    /// Append one row: one cell per column, in column order. The whole row is
    /// validated against the schema before any column is touched, so the call
    /// either extends every column by exactly one cell or refuses and leaves
    /// the table unchanged — a type mismatch never tears the table.
    #[verifier::loop_isolation(false)]
    pub fn add_row(&mut self, row: &[Value]) -> (r: Result<(), TableError>)
        requires
            old(self).wf(),
        ensures
            final(self).wf(),
            r is Ok <==> old(self).accepts_row(row@),
            r is Ok ==> {
                &&& final(self).column_names@ == old(self).column_names@
                &&& final(self).num_rows == old(self).num_rows + 1
                &&& final(self).column_count() == old(self).column_count()
                &&& forall|i: int|
                    0 <= i < old(self).column_count() ==> {
                        let before = old(self).column_data@[i];
                        let after = #[trigger] final(self).column_data@[i];
                        &&& after@ == before@.push(row@[i]@)
                        &&& after.kind() == before.kind()
                        &&& after@.len() == before@.len() + 1
                        &&& after@.last() == row@[i]@
                    }
            },
            r is Err ==> *final(self) == *old(self),
            old(self).column_count() == 0
                ==> r == Err::<(), TableError>(TableError::SchemaRequired),
            old(self).column_count() > 0 && row@.len() != old(self).column_count()
                ==> r == Err::<(), TableError>(TableError::ColumnCountMismatch),
            old(self).column_count() > 0 && row@.len() == old(self).column_count()
                && !old(self).row_kinds_match(row@)
                ==> (r matches Err(TableError::TypeMismatch { .. })),
            r matches Err(TableError::TypeMismatch { position }) ==> {
                &&& row@.len() == old(self).column_count()
                &&& position < row@.len()
                &&& row@[position as int]@.kind() != old(self).column_data@[position as int].kind()
                &&& forall|j: int|
                    0 <= j < position
                        ==> (#[trigger] row@[j])@.kind() == old(self).column_data@[j].kind()
            },
    {
        let ncols = self.column_data.len();
        if ncols == 0 {
            return Err(TableError::SchemaRequired);
        }
        if row.len() != ncols {
            return Err(TableError::ColumnCountMismatch);
        }
        // Validate the whole row first, so that no column is mutated unless
        // every position is going to succeed.
        let mut i: usize = 0;
        while i < ncols
            invariant
                i <= ncols,
                forall|j: int|
                    0 <= j < i ==> (#[trigger] row@[j])@.kind() == self.column_data@[j].kind(),
            decreases ncols - i,
        {
            if !self.column_data[i].accepts(&row[i]) {
                return Err(TableError::TypeMismatch { position: i });
            }
            i = i + 1;
        }
        // Commit: every position is known to match, so push cell by cell.
        let mut i: usize = 0;
        while i < ncols
            invariant
                i <= ncols,
                self.column_data@.len() == ncols,
                self.column_names == old(self).column_names,
                self.num_rows == old(self).num_rows,
                forall|j: int|
                    0 <= j < i ==> {
                        let before = old(self).column_data@[j];
                        let after = #[trigger] self.column_data@[j];
                        after@ == before@.push(row@[j]@) && after.kind() == before.kind()
                    },
                forall|j: int|
                    i <= j < ncols
                        ==> #[trigger] self.column_data@[j] == old(self).column_data@[j],
            decreases ncols - i,
        {
            self.column_data[i].push_value(&row[i]);
            i = i + 1;
        }
        let rows = self.column_data[0].num_rows();
        self.num_rows = rows;
        Ok(())
    }
}

} // verus!
