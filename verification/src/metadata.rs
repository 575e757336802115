//! What is known of a table: where it lives and what its rows hold.

use crate::row::column::ColumnKind;
use vstd::prelude::*;

verus! {

/// The number of a bucket of a table.
pub type BucketId = i32;

/// The path of a table: the database it belongs to and its own name.
#[derive(Debug, Clone, PartialEq, Eq, Hash)]
pub struct TablePath {
    database: String,
    table: String,
}

impl View for TablePath {
    type V = (Seq<char>, Seq<char>);

    /// The name of the database and the name of the table.
    closed spec fn view(&self) -> (Seq<char>, Seq<char>) {
        (self.database@, self.table@)
    }
}

impl TablePath {
    /// The path of the table `table` of the database `database`.
    pub fn new(database: String, table: String) -> (path: Self)
        ensures
            path@ == (database@, table@),
    {
        TablePath { database, table }
    }

    /// The name of the database.
    pub fn database(&self) -> (name: &str)
        ensures
            name@ == self@.0,
    {
        self.database.as_str()
    }

    /// The name of the table.
    pub fn table(&self) -> (name: &str)
        ensures
            name@ == self@.1,
    {
        self.table.as_str()
    }
}

/// The type of a field of a table, or of a whole row.
#[derive(Debug)]
pub enum DataType {
    Boolean,
    TinyInt,
    SmallInt,
    Int,
    BigInt,
    Float,
    Double,
    String,
    Bytes,
    Decimal,
    Date,
    Timestamp,
    TimestampLtz,
    /// A row, with its fields in order.
    Row(Vec<DataField>),
}

/// A named field of a row type.
#[derive(Debug)]
pub struct DataField {
    pub name: String,
    pub data_type: DataType,
}

impl DataType {
    /// The kind of column that holds values of this type, for the types that
    /// can be written: all but floating-point numbers, decimals and rows.
    pub open spec fn column_kind(self) -> Option<ColumnKind> {
        match self {
            DataType::Boolean => Some(ColumnKind::Bool),
            DataType::TinyInt => Some(ColumnKind::Int8),
            DataType::SmallInt => Some(ColumnKind::Int16),
            DataType::Int => Some(ColumnKind::Int32),
            DataType::BigInt => Some(ColumnKind::Int64),
            DataType::String => Some(ColumnKind::Utf8),
            DataType::Bytes => Some(ColumnKind::Binary),
            DataType::Date => Some(ColumnKind::Date32),
            DataType::Timestamp => Some(ColumnKind::TimestampMicros),
            DataType::TimestampLtz => Some(ColumnKind::TimestampMillis),
            DataType::Float => None,
            DataType::Double => None,
            DataType::Decimal => None,
            DataType::Row(_) => None,
        }
    }

    /// The kind of column that holds values of this type, if it can be
    /// written.
    pub fn to_column_kind(&self) -> (kind: Option<ColumnKind>)
        ensures
            kind == self.column_kind(),
    {
        match self {
            DataType::Boolean => Some(ColumnKind::Bool),
            DataType::TinyInt => Some(ColumnKind::Int8),
            DataType::SmallInt => Some(ColumnKind::Int16),
            DataType::Int => Some(ColumnKind::Int32),
            DataType::BigInt => Some(ColumnKind::Int64),
            DataType::String => Some(ColumnKind::Utf8),
            DataType::Bytes => Some(ColumnKind::Binary),
            DataType::Date => Some(ColumnKind::Date32),
            DataType::Timestamp => Some(ColumnKind::TimestampMicros),
            DataType::TimestampLtz => Some(ColumnKind::TimestampMillis),
            DataType::Float => None,
            DataType::Double => None,
            DataType::Decimal => None,
            DataType::Row(_) => None,
        }
    }
}

} // verus!
