//! Scalar values and homogeneous columns: the variant model of the table's
//! cells. A `Value` is one cell of a row; a `Column` is one field across all
//! rows. Both range over the same closed set of three kinds.

use vstd::prelude::*;

verus! {

/// The three scalar kinds a cell may carry. A column's kind is fixed at its
/// creation and never changes.
pub enum ColKind {
    Int,
    Str,
    Bool,
}

/// A single scalar datum: one cell of one row, handed to `add_row` and
/// consumed immediately.
#[derive(Debug)]
pub enum Value {
    Int(i64),
    String(String),
    Bool(bool),
}

/// One field across all rows: a homogeneous, growable sequence of scalars of
/// a single kind.
#[derive(Debug)]
pub enum Column {
    Int(Vec<i64>),
    String(Vec<String>),
    Bool(Vec<bool>),
}

/// The mathematical content of one cell, free of its machine representation:
/// what a `Value` denotes, and what each slot of a `Column` holds.
pub enum CellModel {
    Int(int),
    Str(Seq<char>),
    Bool(bool),
}

impl CellModel {
    /// The kind of the cell.
    pub open spec fn kind(self) -> ColKind {
        match self {
            CellModel::Int(_) => ColKind::Int,
            CellModel::Str(_) => ColKind::Str,
            CellModel::Bool(_) => ColKind::Bool,
        }
    }
}

impl View for Value {
    type V = CellModel;

    open spec fn view(&self) -> CellModel {
        match self {
            Value::Int(i) => CellModel::Int(*i as int),
            Value::String(s) => CellModel::Str(s@),
            Value::Bool(b) => CellModel::Bool(*b),
        }
    }
}

impl View for Column {
    type V = Seq<CellModel>;

    open spec fn view(&self) -> Seq<CellModel> {
        match self {
            Column::Int(v) => v@.map_values(|x: i64| CellModel::Int(x as int)),
            Column::String(v) => v@.map_values(|s: String| CellModel::Str(s@)),
            Column::Bool(v) => v@.map_values(|b: bool| CellModel::Bool(b)),
        }
    }
}

impl Column {
    /// The kind shared by every cell of this column.
    pub open spec fn kind(self) -> ColKind {
        match self {
            Column::Int(_) => ColKind::Int,
            Column::String(_) => ColKind::Str,
            Column::Bool(_) => ColKind::Bool,
        }
    }

    /// The number of cells currently stored, whatever the kind.
    pub fn num_rows(&self) -> (n: usize)
        ensures
            n == self@.len(),
    {
        match self {
            Column::Int(v) => v.len(),
            Column::String(v) => v.len(),
            Column::Bool(v) => v.len(),
        }
    }

    /// Whether `value` may be appended to this column: the kinds agree.
    pub fn accepts(&self, value: &Value) -> (b: bool)
        ensures
            b == (self.kind() == value@.kind()),
    {
        match (self, value) {
            (Column::Int(_), Value::Int(_)) => true,
            (Column::String(_), Value::String(_)) => true,
            (Column::Bool(_), Value::Bool(_)) => true,
            _ => false,
        }
    }

    /// Append one cell of the column's own kind.
    pub fn push_value(&mut self, value: &Value)
        requires
            old(self).kind() == value@.kind(),
        ensures
            final(self)@ == old(self)@.push(value@),
            final(self).kind() == old(self).kind(),
    {
        match (&mut *self, value) {
            (Column::Int(v), Value::Int(x)) => v.push(*x),
            (Column::String(v), Value::String(s)) => v.push(s.clone()),
            (Column::Bool(v), Value::Bool(b)) => v.push(*b),
            // No other pairing can occur: the kinds are required to agree.
            _ => {},
        }
    }
}

} // verus!
