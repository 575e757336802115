//! Column builders: the cells of one column of a batch, gathered in an Arrow
//! array builder.

use crate::row::datum::ValueKind;
use arrow::array::make_builder;
use arrow::datatypes::{DataType, TimeUnit};
use vstd::prelude::*;
use vstd::string::*;
use vstd::utf8::encode_utf8;

verus! {

/// The kinds of column that values can be written into.
#[derive(Debug, Clone, Copy, PartialEq, Eq, Structural, Hash)]
pub enum ColumnKind {
    /// Booleans, in a `BooleanBuilder`.
    Bool,
    /// 8-bit integers, in an `Int8Builder`.
    Int8,
    /// 16-bit integers, in an `Int16Builder`.
    Int16,
    /// 32-bit integers, in an `Int32Builder`.
    Int32,
    /// 64-bit integers, in an `Int64Builder`.
    Int64,
    /// Strings, in a `StringBuilder`.
    Utf8,
    /// Byte strings, in a `BinaryBuilder`.
    Binary,
    /// Dates as days since the epoch, in a `Date32Builder`.
    Date32,
    /// Timestamps in microseconds, in a `TimestampMicrosecondBuilder`.
    TimestampMicros,
    /// Timestamps in milliseconds, in a `TimestampMillisecondBuilder`.
    TimestampMillis,
}

/// One value of a column.
pub enum Cell {
    Bool(bool),
    Int8(i8),
    Int16(i16),
    Int32(i32),
    Int64(i64),
    Utf8(Seq<char>),
    Binary(Seq<u8>),
    Date32(i32),
    TimestampMicros(i64),
    TimestampMillis(i64),
}

impl Cell {
    /// The kind of value that this cell was made from.
    pub open spec fn value_kind(self) -> ValueKind {
        match self {
            Cell::Bool(_) => ValueKind::Bool,
            Cell::Int8(_) => ValueKind::Int8,
            Cell::Int16(_) => ValueKind::Int16,
            Cell::Int32(_) => ValueKind::Int32,
            Cell::Int64(_) => ValueKind::Int64,
            Cell::Utf8(_) => ValueKind::String,
            Cell::Binary(_) => ValueKind::Blob,
            Cell::Date32(_) => ValueKind::Date,
            Cell::TimestampMicros(_) => ValueKind::Timestamp,
            Cell::TimestampMillis(_) => ValueKind::TimestampTz,
        }
    }

    /// The kind of column that takes this cell.
    pub open spec fn kind(self) -> ColumnKind {
        match self {
            Cell::Bool(_) => ColumnKind::Bool,
            Cell::Int8(_) => ColumnKind::Int8,
            Cell::Int16(_) => ColumnKind::Int16,
            Cell::Int32(_) => ColumnKind::Int32,
            Cell::Int64(_) => ColumnKind::Int64,
            Cell::Utf8(_) => ColumnKind::Utf8,
            Cell::Binary(_) => ColumnKind::Binary,
            Cell::Date32(_) => ColumnKind::Date32,
            Cell::TimestampMicros(_) => ColumnKind::TimestampMicros,
            Cell::TimestampMillis(_) => ColumnKind::TimestampMillis,
        }
    }

    /// The number of bytes that this cell is counted as in the size of a
    /// batch: one for a boolean; the width of a number, a date or a
    /// timestamp; for a string or a byte string, four bytes for its offset and
    /// the number of its bytes, a string being taken in its UTF-8 form.
    pub open spec fn size(self) -> nat {
        match self {
            Cell::Bool(_) => 1,
            Cell::Int8(_) => 1,
            Cell::Int16(_) => 2,
            Cell::Int32(_) => 4,
            Cell::Int64(_) => 8,
            Cell::Utf8(s) => 4 + encode_utf8(s).len(),
            Cell::Binary(b) => 4 + b.len(),
            Cell::Date32(_) => 4,
            Cell::TimestampMicros(_) => 8,
            Cell::TimestampMillis(_) => 8,
        }
    }

    /// The number of bytes that this cell adds to the data of a column of
    /// strings or byte strings: the number of its bytes, and nothing for a
    /// cell of another kind.
    pub open spec fn data_len(self) -> nat {
        match self {
            Cell::Utf8(s) => encode_utf8(s).len(),
            Cell::Binary(b) => b.len(),
            _ => 0,
        }
    }
}

/// The number of data bytes of all of `cells`.
pub open spec fn data_len(cells: Seq<Cell>) -> nat
    decreases cells.len(),
{
    if cells.len() == 0 {
        0
    } else {
        data_len(cells.drop_last()) + cells.last().data_len()
    }
}

/// One more cell adds its own data bytes to the total.
pub proof fn lemma_data_len_push(cells: Seq<Cell>, cell: Cell)
    ensures
        data_len(cells.push(cell)) == data_len(cells) + cell.data_len(),
{
    assert(cells.push(cell).drop_last() =~= cells);
}

/// The most data bytes that a column of strings or of byte strings holds: its
/// offsets are 32-bit.
pub const MAX_COLUMN_DATA: usize = 0x7fff_ffff;

/// A growing column of one kind, held in an Arrow array builder.
#[verifier::external_body]
pub struct ColumnBuilder {
    inner: Box<dyn arrow::array::ArrayBuilder>,
}

/// The kind that a column builder was made for.
pub uninterp spec fn column_kind(c: ColumnBuilder) -> ColumnKind;

/// The cells that a column builder holds, in the order they were appended.
pub uninterp spec fn column_cells(c: ColumnBuilder) -> Seq<Cell>;

impl View for ColumnBuilder {
    type V = Seq<Cell>;

    open spec fn view(&self) -> Seq<Cell> {
        column_cells(*self)
    }
}

impl ColumnBuilder {
    /// The kind that this column was made for.
    pub open spec fn kind(&self) -> ColumnKind {
        column_kind(*self)
    }

    /// Whether `cell` can be appended without the column's data growing past
    /// what its offsets can address. A cell without data bytes always can.
    pub open spec fn has_room(&self, cell: Cell) -> bool {
        cell.data_len() > 0 ==> data_len(self@) + cell.data_len() <= MAX_COLUMN_DATA
    }

    /// Whether `after` is this column after `cell` was offered to it: with
    /// the cell appended if it is of this column's kind, as it stood if not.
    pub open spec fn offered(&self, cell: Cell, after: ColumnBuilder) -> bool {
        if self.kind() == cell.kind() {
            self.extended_by(cell, after)
        } else {
            self.unchanged(after)
        }
    }

    /// Whether `after` is this column with `cell` appended.
    pub open spec fn extended_by(&self, cell: Cell, after: ColumnBuilder) -> bool {
        after.kind() == self.kind() && after@ == self@.push(cell)
    }

    /// Whether `after` is this column as it stands.
    pub open spec fn unchanged(&self, after: ColumnBuilder) -> bool {
        after.kind() == self.kind() && after@ == self@
    }

    /// The number of cells in this column.
    pub fn len(&self) -> (n: usize)
        ensures
            n == self@.len(),
    {
        column_len(self)
    }

    /// An empty column of the given kind.
    pub fn new(kind: ColumnKind) -> (c: ColumnBuilder)
        ensures
            c.kind() == kind,
            c@ == Seq::<Cell>::empty(),
    {
        make_column(kind)
    }
}

/// Calls `len` of `ArrayBuilder`, which gives the number of values that the
/// builder holds.
#[verifier::external_body]
fn column_len(c: &ColumnBuilder) -> (n: usize)
    ensures
        n == column_cells(*c).len(),
{
    c.inner.len()
}

/// Calls `arrow::array::make_builder` for the Arrow type of `kind`.
///
/// For each of these types that function returns an empty builder of the
/// type that the kind is documented with: a `BooleanBuilder` for booleans, an
/// `Int8Builder` for 8-bit integers, and so on.
#[verifier::external_body]
fn make_column(kind: ColumnKind) -> (c: ColumnBuilder)
    ensures
        column_kind(c) == kind,
        column_cells(c) == Seq::<Cell>::empty(),
{
    let data_type = match kind {
        ColumnKind::Bool => DataType::Boolean,
        ColumnKind::Int8 => DataType::Int8,
        ColumnKind::Int16 => DataType::Int16,
        ColumnKind::Int32 => DataType::Int32,
        ColumnKind::Int64 => DataType::Int64,
        ColumnKind::Utf8 => DataType::Utf8,
        ColumnKind::Binary => DataType::Binary,
        ColumnKind::Date32 => DataType::Date32,
        ColumnKind::TimestampMicros => DataType::Timestamp(TimeUnit::Microsecond, None),
        ColumnKind::TimestampMillis => DataType::Timestamp(TimeUnit::Millisecond, None),
    };
    ColumnBuilder { inner: make_builder(&data_type, 0) }
}

/// Downcasts the builder to `Int8Builder` and calls its `append_value`.
///
/// The downcast succeeds exactly when the builder was made for 8-bit
/// integers; the call then adds `v` as the last value, not null.
#[verifier::external_body]
pub(crate) fn push_i8(c: &mut ColumnBuilder, v: i8) -> (done: bool)
    ensures
        done == (column_kind(*old(c)) == ColumnKind::Int8),
        column_kind(*final(c)) == column_kind(*old(c)),
        done ==> column_cells(*final(c)) == column_cells(*old(c)).push(Cell::Int8(v)),
        !done ==> column_cells(*final(c)) == column_cells(*old(c)),
{
    match c.inner.as_any_mut().downcast_mut::<arrow::array::Int8Builder>() {
        Some(b) => {
            b.append_value(v);
            true
        },
        None => false,
    }
}

/// Downcasts the builder to `Int16Builder` and calls its `append_value`.
///
/// The downcast succeeds exactly when the builder was made for 16-bit
/// integers; the call then adds `v` as the last value, not null.
#[verifier::external_body]
pub(crate) fn push_i16(c: &mut ColumnBuilder, v: i16) -> (done: bool)
    ensures
        done == (column_kind(*old(c)) == ColumnKind::Int16),
        column_kind(*final(c)) == column_kind(*old(c)),
        done ==> column_cells(*final(c)) == column_cells(*old(c)).push(Cell::Int16(v)),
        !done ==> column_cells(*final(c)) == column_cells(*old(c)),
{
    match c.inner.as_any_mut().downcast_mut::<arrow::array::Int16Builder>() {
        Some(b) => {
            b.append_value(v);
            true
        },
        None => false,
    }
}

/// Downcasts the builder to `Int32Builder` and calls its `append_value`.
///
/// The downcast succeeds exactly when the builder was made for 32-bit
/// integers; the call then adds `v` as the last value, not null.
#[verifier::external_body]
pub(crate) fn push_i32(c: &mut ColumnBuilder, v: i32) -> (done: bool)
    ensures
        done == (column_kind(*old(c)) == ColumnKind::Int32),
        column_kind(*final(c)) == column_kind(*old(c)),
        done ==> column_cells(*final(c)) == column_cells(*old(c)).push(Cell::Int32(v)),
        !done ==> column_cells(*final(c)) == column_cells(*old(c)),
{
    match c.inner.as_any_mut().downcast_mut::<arrow::array::Int32Builder>() {
        Some(b) => {
            b.append_value(v);
            true
        },
        None => false,
    }
}

/// Downcasts the builder to `StringBuilder` and calls its `append_value`.
///
/// The downcast succeeds exactly when the builder was made for strings; the
/// call then adds `v` as the last value, not null. It panics when `v` takes
/// the bytes of all values together past `i32::MAX`, which the precondition
/// leaves out.
#[verifier::external_body]
pub(crate) fn push_str(c: &mut ColumnBuilder, v: &str) -> (done: bool)
    requires
        column_kind(*old(c)) == ColumnKind::Utf8 && encode_utf8(v@).len() > 0 ==> data_len(
            column_cells(*old(c)),
        ) + encode_utf8(v@).len() <= MAX_COLUMN_DATA,
    ensures
        done == (column_kind(*old(c)) == ColumnKind::Utf8),
        column_kind(*final(c)) == column_kind(*old(c)),
        done ==> column_cells(*final(c)) == column_cells(*old(c)).push(Cell::Utf8(v@)),
        !done ==> column_cells(*final(c)) == column_cells(*old(c)),
{
    match c.inner.as_any_mut().downcast_mut::<arrow::array::StringBuilder>() {
        Some(b) => {
            b.append_value(v);
            true
        },
        None => false,
    }
}

/// Downcasts the builder to `BooleanBuilder` and calls its `append_value`.
///
/// The downcast succeeds exactly when the builder was made for booleans; the
/// call then adds `v` as the last value, not null.
#[verifier::external_body]
pub(crate) fn push_bool(c: &mut ColumnBuilder, v: bool) -> (done: bool)
    ensures
        done == (column_kind(*old(c)) == ColumnKind::Bool),
        column_kind(*final(c)) == column_kind(*old(c)),
        done ==> column_cells(*final(c)) == column_cells(*old(c)).push(Cell::Bool(v)),
        !done ==> column_cells(*final(c)) == column_cells(*old(c)),
{
    match c.inner.as_any_mut().downcast_mut::<arrow::array::BooleanBuilder>() {
        Some(b) => {
            b.append_value(v);
            true
        },
        None => false,
    }
}

/// Downcasts the builder to `Int64Builder` and calls its `append_value`.
///
/// The downcast succeeds exactly when the builder was made for 64-bit integers; the
/// call then adds `v` as the last value, not null.
#[verifier::external_body]
pub(crate) fn push_i64(c: &mut ColumnBuilder, v: i64) -> (done: bool)
    ensures
        done == (column_kind(*old(c)) == ColumnKind::Int64),
        column_kind(*final(c)) == column_kind(*old(c)),
        done ==> column_cells(*final(c)) == column_cells(*old(c)).push(Cell::Int64(v)),
        !done ==> column_cells(*final(c)) == column_cells(*old(c)),
{
    match c.inner.as_any_mut().downcast_mut::<arrow::array::Int64Builder>() {
        Some(b) => {
            b.append_value(v);
            true
        },
        None => false,
    }
}

/// Downcasts the builder to `Date32Builder` and calls its `append_value`.
///
/// The downcast succeeds exactly when the builder was made for dates; the
/// call then adds `v` as the last value, not null.
#[verifier::external_body]
pub(crate) fn push_date(c: &mut ColumnBuilder, v: i32) -> (done: bool)
    ensures
        done == (column_kind(*old(c)) == ColumnKind::Date32),
        column_kind(*final(c)) == column_kind(*old(c)),
        done ==> column_cells(*final(c)) == column_cells(*old(c)).push(Cell::Date32(v)),
        !done ==> column_cells(*final(c)) == column_cells(*old(c)),
{
    match c.inner.as_any_mut().downcast_mut::<arrow::array::Date32Builder>() {
        Some(b) => {
            b.append_value(v);
            true
        },
        None => false,
    }
}

/// Downcasts the builder to `TimestampMicrosecondBuilder` and calls its `append_value`.
///
/// The downcast succeeds exactly when the builder was made for timestamps in microseconds; the
/// call then adds `v` as the last value, not null.
#[verifier::external_body]
pub(crate) fn push_micros(c: &mut ColumnBuilder, v: i64) -> (done: bool)
    ensures
        done == (column_kind(*old(c)) == ColumnKind::TimestampMicros),
        column_kind(*final(c)) == column_kind(*old(c)),
        done ==> column_cells(*final(c)) == column_cells(*old(c)).push(Cell::TimestampMicros(v)),
        !done ==> column_cells(*final(c)) == column_cells(*old(c)),
{
    match c.inner.as_any_mut().downcast_mut::<arrow::array::TimestampMicrosecondBuilder>() {
        Some(b) => {
            b.append_value(v);
            true
        },
        None => false,
    }
}

/// Downcasts the builder to `TimestampMillisecondBuilder` and calls its `append_value`.
///
/// The downcast succeeds exactly when the builder was made for timestamps in milliseconds; the
/// call then adds `v` as the last value, not null.
#[verifier::external_body]
pub(crate) fn push_millis(c: &mut ColumnBuilder, v: i64) -> (done: bool)
    ensures
        done == (column_kind(*old(c)) == ColumnKind::TimestampMillis),
        column_kind(*final(c)) == column_kind(*old(c)),
        done ==> column_cells(*final(c)) == column_cells(*old(c)).push(Cell::TimestampMillis(v)),
        !done ==> column_cells(*final(c)) == column_cells(*old(c)),
{
    match c.inner.as_any_mut().downcast_mut::<arrow::array::TimestampMillisecondBuilder>() {
        Some(b) => {
            b.append_value(v);
            true
        },
        None => false,
    }
}

/// Downcasts the builder to `BinaryBuilder` and calls its `append_value`.
///
/// The downcast succeeds exactly when the builder was made for byte strings;
/// the call then adds `v` as the last value, not null. It panics when `v`
/// takes the bytes of all values together past `i32::MAX`, which the
/// precondition leaves out.
#[verifier::external_body]
pub(crate) fn push_bytes(c: &mut ColumnBuilder, v: &[u8]) -> (done: bool)
    requires
        column_kind(*old(c)) == ColumnKind::Binary && v@.len() > 0 ==> data_len(
            column_cells(*old(c)),
        ) + v@.len() <= MAX_COLUMN_DATA,
    ensures
        done == (column_kind(*old(c)) == ColumnKind::Binary),
        column_kind(*final(c)) == column_kind(*old(c)),
        done ==> column_cells(*final(c)) == column_cells(*old(c)).push(Cell::Binary(v@)),
        !done ==> column_cells(*final(c)) == column_cells(*old(c)),
{
    match c.inner.as_any_mut().downcast_mut::<arrow::array::BinaryBuilder>() {
        Some(b) => {
            b.append_value(v);
            true
        },
        None => false,
    }
}

/// The error type of Arrow.
#[verifier::external_type_specification]
#[verifier::external_body]
pub struct ExArrowError(arrow::error::ArrowError);

/// The bytes of the Arrow IPC stream that holds the schema of the given
/// columns and then one record batch of them, where one can be written. Each
/// column is given by the name of its field, its kind and its cells.
pub uninterp spec fn ipc_stream(columns: Seq<(Seq<char>, ColumnKind, Seq<Cell>)>) -> Option<
    Seq<u8>,
>;

/// The columns that a payload is made of: each builder's kind and cells,
/// under the name at its position.
pub open spec fn named_columns(names: Seq<String>, columns: Seq<ColumnBuilder>) -> Seq<
    (Seq<char>, ColumnKind, Seq<Cell>),
> {
    Seq::new(columns.len(), |j: int| (names[j]@, columns[j].kind(), columns[j]@))
}

/// Calls `finish_cloned` of `ArrayBuilder` on each builder, which gives an
/// array of its cells and leaves the builder as it is; then
/// `RecordBatch::try_from_iter` on the arrays with their names; then writes
/// the schema and the batch with a `StreamWriter` of `arrow::ipc::writer`
/// into a vector, and hands the vector back.
///
/// What is written depends on the names, kinds and cells of the columns
/// alone. A batch without columns is refused.
#[verifier::external_body]
pub(crate) fn encode_columns(names: &Vec<String>, columns: &Vec<ColumnBuilder>) -> (r: Result<
    Vec<u8>,
    arrow::error::ArrowError,
>)
    requires
        names.len() == columns.len(),
    ensures
        match ipc_stream(named_columns(names@, columns@)) {
            Some(bytes) => r matches Ok(v) && v@ == bytes,
            None => r is Err,
        },
        r is Ok ==> columns.len() > 0,
{
    let batch = arrow::record_batch::RecordBatch::try_from_iter(
        names.iter().zip(columns.iter()).map(|(name, c)| (name, c.inner.finish_cloned())),
    )?;
    let mut writer = arrow::ipc::writer::StreamWriter::try_new(Vec::new(), &batch.schema())?;
    writer.write(&batch)?;
    writer.into_inner()
}

} // verus!
