//! The encoder of a batch: rows are taken apart into the columns of a schema,
//! and the columns are written out as one payload.

use crate::error::Error;
use crate::metadata::{DataField, DataType};
use crate::row::column::{
    data_len, encode_columns, ipc_stream, lemma_data_len_push, Cell, ColumnBuilder, ColumnKind,
    MAX_COLUMN_DATA,
};
use crate::row::datum::{Datum, Value};
use crate::row::GenericRow;
use vstd::prelude::*;
use vstd::string::*;

verus! {

/// The number of rows that an encoder takes unless it is told otherwise.
pub const DEFAULT_MAX_RECORD: usize = 256;

/// The size of the first `n` of `cells`, each counted by [`Cell::size`].
pub open spec fn prefix_size(cells: Seq<Cell>, n: int) -> nat
    decreases n,
{
    if n <= 0 {
        0
    } else {
        prefix_size(cells, n - 1) + cells[n - 1].size()
    }
}

/// The size of a row of cells.
pub open spec fn cells_size(cells: Seq<Cell>) -> nat {
    prefix_size(cells, cells.len() as int)
}

/// The size of all of `rows` together.
pub open spec fn rows_size(rows: Seq<Seq<Cell>>) -> nat
    decreases rows.len(),
{
    if rows.len() == 0 {
        0
    } else {
        rows_size(rows.drop_last()) + cells_size(rows.last())
    }
}

/// A longer prefix of a row is at least as large as a shorter one, and as
/// large as each of its cells.
pub proof fn lemma_prefix_size_grows(cells: Seq<Cell>, n: int, m: int)
    requires
        0 <= n <= m,
    ensures
        prefix_size(cells, n) <= prefix_size(cells, m),
        n < m ==> cells[n].size() <= prefix_size(cells, m),
    decreases m,
{
    if n < m {
        lemma_prefix_size_grows(cells, n, m - 1);
    }
}

/// One more row adds its own size to the total.
pub proof fn lemma_rows_size_push(rows: Seq<Seq<Cell>>, row: Seq<Cell>)
    ensures
        rows_size(rows.push(row)) == rows_size(rows) + cells_size(row),
{
    assert(rows.push(row).drop_last() =~= rows);
}

/// The cells that the values of a row become, position by position.
pub open spec fn row_cells(values: Seq<Value>) -> Seq<Cell> {
    Seq::new(values.len(), |j: int| values[j].cell().unwrap())
}

/// The first position from `j` on at which a value does not fit the kind of
/// its column, or the number of columns if every value from `j` on fits.
pub open spec fn misfit_from(kinds: Seq<ColumnKind>, values: Seq<Value>, j: int) -> int
    decreases kinds.len() - j,
{
    if j < 0 || j >= kinds.len() {
        kinds.len() as int
    } else if !values[j].fits(kinds[j]) {
        j
    } else {
        misfit_from(kinds, values, j + 1)
    }
}

/// The position that [`misfit_from`] gives is the first from `j` on at which
/// a value does not fit: every value before it fits, and the value at it does
/// not, unless it is the number of columns.
pub proof fn lemma_misfit_is_first(kinds: Seq<ColumnKind>, values: Seq<Value>, j: int)
    requires
        0 <= j <= kinds.len(),
    ensures
        j <= misfit_from(kinds, values, j) <= kinds.len(),
        forall|k: int| j <= k < misfit_from(kinds, values, j) ==> values[k].fits(kinds[k]),
        misfit_from(kinds, values, j) < kinds.len() ==> !values[misfit_from(
            kinds,
            values,
            j,
        )].fits(kinds[misfit_from(kinds, values, j)]),
    decreases kinds.len() - j,
{
    if j < kinds.len() && values[j].fits(kinds[j]) {
        lemma_misfit_is_first(kinds, values, j + 1);
    }
}

/// A row of at least one cell has a size, since every cell has one.
pub proof fn lemma_cells_size_positive(cells: Seq<Cell>)
    requires
        cells.len() > 0,
    ensures
        cells_size(cells) > 0,
{
    lemma_prefix_size_grows(cells, 0, cells.len() as int);
}

/// What an encoder is: the schema it is bound to, the rows it has taken, and
/// whether it still takes any.
pub struct EncoderModel {
    /// The identifier of the schema.
    pub schema_id: i32,
    /// The name of each column.
    pub names: Seq<Seq<char>>,
    /// The kind of each column.
    pub kinds: Seq<ColumnKind>,
    /// The rows taken so far, each as one cell per column.
    pub rows: Seq<Seq<Cell>>,
    /// The number of rows at which the encoder is full.
    pub max_records: nat,
    /// Whether the encoder was closed.
    pub closed: bool,
}

impl EncoderModel {
    /// An open encoder without rows for the given columns, each with its name
    /// and kind.
    pub open spec fn empty(
        schema_id: i32,
        schema: Seq<(Seq<char>, ColumnKind)>,
        max_records: nat,
    ) -> EncoderModel {
        EncoderModel {
            schema_id,
            names: Seq::new(schema.len(), |j: int| schema[j].0),
            kinds: Seq::new(schema.len(), |j: int| schema[j].1),
            rows: Seq::empty(),
            max_records,
            closed: false,
        }
    }

    /// The estimated size of the rows taken so far.
    pub open spec fn size(self) -> nat {
        rows_size(self.rows)
    }

    /// Whether the encoder holds as many rows as it takes.
    pub open spec fn full(self) -> bool {
        self.rows.len() >= self.max_records
    }

    /// Whether there is a column, every row has one cell per column, each of
    /// the column's kind, and the rows are neither more nor larger than the
    /// encoder takes.
    pub open spec fn well_formed(self) -> bool {
        &&& self.kinds.len() > 0
        &&& self.names.len() == self.kinds.len()
        &&& self.rows.len() <= self.max_records
        &&& self.size() <= MAX_COLUMN_DATA
        &&& forall|i: int|
            0 <= i < self.rows.len() ==> (#[trigger] self.rows[i]).len() == self.kinds.len()
        &&& forall|i: int, j: int|
            0 <= i < self.rows.len() && 0 <= j < self.kinds.len() ==> (
            #[trigger] self.rows[i][j]).kind() == self.kinds[j]
    }

    /// The cells of column `j`, from the first row to the last.
    pub open spec fn column(self, j: int) -> Seq<Cell> {
        Seq::new(self.rows.len(), |i: int| self.rows[i][j])
    }

    /// Why a row of the given values is not taken, if it is not.
    ///
    /// A closed encoder takes no row, nor does a full one. The row must have
    /// one value per column. Each value must fit the kind of its column: the
    /// first that does not is named. And the row must not take the size of
    /// the batch past what a column can address.
    pub open spec fn rejection(self, values: Seq<Value>) -> Option<Error> {
        if self.closed {
            Some(Error::EncoderClosed)
        } else if self.full() {
            Some(Error::EncoderFull)
        } else if values.len() != self.kinds.len() {
            Some(
                Error::FieldCountMismatch {
                    schema_fields: self.kinds.len() as usize,
                    row_fields: values.len() as usize,
                },
            )
        } else if misfit_from(self.kinds, values, 0) < self.kinds.len() {
            Some(
                Error::RowConvertError {
                    value: values[misfit_from(self.kinds, values, 0)].kind(),
                },
            )
        } else if self.size() + cells_size(row_cells(values)) > MAX_COLUMN_DATA {
            Some(Error::RecordTooLarge)
        } else {
            None
        }
    }

    /// This encoder with one more row.
    pub open spec fn with_row(self, cells: Seq<Cell>) -> EncoderModel {
        EncoderModel { rows: self.rows.push(cells), ..self }
    }

    /// This encoder, closed.
    pub open spec fn closed_now(self) -> EncoderModel {
        EncoderModel { closed: true, ..self }
    }

    /// The columns as a payload is made of them: name, kind and cells of
    /// each.
    pub open spec fn named_columns(self) -> Seq<(Seq<char>, ColumnKind, Seq<Cell>)> {
        Seq::new(self.kinds.len(), |j: int| (self.names[j], self.kinds[j], self.column(j)))
    }

    /// The payload that holds the rows taken so far, where one can be
    /// written.
    pub open spec fn payload(self) -> Option<Seq<u8>> {
        ipc_stream(self.named_columns())
    }
}

/// The estimated size of a well-formed encoder is not zero once it has taken
/// a row, so that a batch can be flushed by size.
pub proof fn lemma_size_positive(encoder: EncoderModel)
    requires
        encoder.well_formed(),
    ensures
        encoder.rows.len() > 0 ==> encoder.size() > 0,
{
    if encoder.rows.len() > 0 {
        lemma_cells_size_positive(encoder.rows.last());
    }
}

/// Gathers rows into the columns of one schema and writes them out as an
/// Arrow IPC stream.
pub struct MemoryLogRecordsArrowBuilder {
    schema_id: i32,
    names: Vec<String>,
    kinds: Vec<ColumnKind>,
    columns: Vec<ColumnBuilder>,
    records_count: usize,
    max_records: usize,
    bytes: usize,
    is_closed: bool,
    rows: Ghost<Seq<Seq<Cell>>>,
}

impl View for MemoryLogRecordsArrowBuilder {
    type V = EncoderModel;

    closed spec fn view(&self) -> EncoderModel {
        EncoderModel {
            schema_id: self.schema_id,
            names: Seq::new(self.names@.len(), |j: int| self.names@[j]@),
            kinds: self.kinds@,
            rows: self.rows@,
            max_records: self.max_records as nat,
            closed: self.is_closed,
        }
    }
}

/// The row type's fields as the columns of an encoder, if it is a row type
/// with at least one field and each of its fields can be written; else the
/// error that says why not.
pub open spec fn schema_of(row_type: DataType) -> Result<Seq<(Seq<char>, ColumnKind)>, Error> {
    match row_type {
        DataType::Row(fields) => {
            let bad = unsupported_from(fields@, 0);
            if fields@.len() == 0 {
                Err(Error::EmptyRow)
            } else if bad < fields@.len() {
                Err(Error::UnsupportedColumn { pos: bad as usize })
            } else {
                Ok(
                    Seq::new(
                        fields@.len(),
                        |j: int| (fields@[j].name@, fields@[j].data_type.column_kind().unwrap()),
                    ),
                )
            }
        },
        _ => Err(Error::NotARow),
    }
}

/// The first position from `j` on of a field whose type cannot be written, or
/// the number of fields if there is none.
pub open spec fn unsupported_from(fields: Seq<DataField>, j: int) -> int
    decreases fields.len() - j,
{
    if j < 0 || j >= fields.len() {
        fields.len() as int
    } else if fields[j].data_type.column_kind() is None {
        j
    } else {
        unsupported_from(fields, j + 1)
    }
}

/// The size of the cell that `datum` becomes, if it is at most `room`.
fn cell_width(datum: &Datum<'_>, room: usize) -> (width: Option<usize>)
    requires
        datum@.cell() is Some,
    ensures
        width matches Some(w) ==> w == datum@.cell().unwrap().size() && w <= room,
        width is None ==> datum@.cell().unwrap().size() > room,
{
    let (fixed, data): (usize, usize) = match datum {
        Datum::Bool(_) => (1, 0),
        Datum::Int16(_) => (2, 0),
        Datum::Int32(_) => (4, 0),
        Datum::Int64(_) => (8, 0),
        Datum::String(s) => (4, s.as_bytes().len()),
        Datum::Blob(b) => (4, b.as_bytes().len()),
        Datum::Date(_) => (4, 0),
        Datum::Timestamp(_) => (8, 0),
        Datum::TimestampTz(_) => (8, 0),
        _ => (0, 0),
    };
    if room >= fixed && data <= room - fixed {
        Some(data + fixed)
    } else {
        None
    }
}

/// The position that [`unsupported_from`] gives is the first from `j` on of a
/// field that cannot be written: every field before it can, and the field at
/// it cannot, unless it is the number of fields.
pub proof fn lemma_unsupported_is_first(fields: Seq<DataField>, j: int)
    requires
        0 <= j <= fields.len(),
    ensures
        j <= unsupported_from(fields, j) <= fields.len(),
        forall|k: int|
            j <= k < unsupported_from(fields, j) ==> (#[trigger] fields[k]).data_type.column_kind()
                is Some,
        unsupported_from(fields, j) < fields.len() ==> fields[unsupported_from(
            fields,
            j,
        )].data_type.column_kind() is None,
    decreases fields.len() - j,
{
    if j < fields.len() && fields[j].data_type.column_kind() is Some {
        lemma_unsupported_is_first(fields, j + 1);
    }
}

impl MemoryLogRecordsArrowBuilder {
    /// Whether the parts of this encoder agree: each column builder is of
    /// its column's kind and holds that column's cells, and the counters say
    /// what the rows are.
    pub closed spec fn wf(&self) -> bool {
        &&& self@.well_formed()
        &&& self.columns@.len() == self.kinds@.len()
        &&& self.names@.len() == self.kinds@.len()
        &&& self.records_count == self.rows@.len()
        &&& self.bytes == rows_size(self.rows@)
        &&& forall|j: int|
            0 <= j < self.columns@.len() ==> {
                &&& (#[trigger] self.columns@[j]).kind() == self.kinds@[j]
                &&& self.columns@[j]@ == self@.column(j)
                &&& data_len(self.columns@[j]@) <= self.bytes
            }
    }

    /// A well-formed encoder stands for a well-formed model.
    pub proof fn lemma_wf(&self)
        requires
            self.wf(),
        ensures
            self@.well_formed(),
    {
    }

    /// An encoder for rows of the type `row_type`, bound to the schema
    /// `schema_id`, that takes [`DEFAULT_MAX_RECORD`] rows.
    pub fn new(schema_id: i32, row_type: &DataType) -> (r: Result<Self, Error>)
        ensures
            match schema_of(*row_type) {
                Ok(schema) => r matches Ok(e) && e.wf() && e@ == EncoderModel::empty(
                    schema_id,
                    schema,
                    DEFAULT_MAX_RECORD as nat,
                ),
                Err(e) => r matches Err(x) && x == e,
            },
    {
        Self::with_max_records(schema_id, row_type, DEFAULT_MAX_RECORD)
    }

    /// An encoder for rows of the type `row_type`, bound to the schema
    /// `schema_id`, that is full at `max_records` rows.
    pub fn with_max_records(schema_id: i32, row_type: &DataType, max_records: usize) -> (r: Result<
        Self,
        Error,
    >)
        ensures
            match schema_of(*row_type) {
                Ok(schema) => r matches Ok(e) && e.wf() && e@ == EncoderModel::empty(
                    schema_id,
                    schema,
                    max_records as nat,
                ),
                Err(e) => r matches Err(x) && x == e,
            },
    {
        let fields = match row_type {
            DataType::Row(fields) => fields,
            _ => {
                return Err(Error::NotARow);
            },
        };
        if fields.len() == 0 {
            return Err(Error::EmptyRow);
        }
        let mut names: Vec<String> = Vec::new();
        let mut kinds: Vec<ColumnKind> = Vec::new();
        let mut columns: Vec<ColumnBuilder> = Vec::new();
        let mut j: usize = 0;
        while j < fields.len()
            invariant
                j <= fields.len(),
                names@.len() == j,
                kinds@.len() == j,
                columns@.len() == j,
                *row_type == DataType::Row(*fields),
                unsupported_from(fields@, 0) == unsupported_from(fields@, j as int),
                forall|k: int| 0 <= k < j ==> (#[trigger] names@[k])@ == fields@[k].name@,
                forall|k: int|
                    0 <= k < j ==> fields@[k].data_type.column_kind() == Some(#[trigger] kinds@[k]),
                forall|k: int|
                    0 <= k < j ==> (#[trigger] columns@[k]).kind() == kinds@[k] && columns@[k]@
                        == Seq::<Cell>::empty(),
            decreases fields.len() - j,
        {
            let kind = match fields[j].data_type.to_column_kind() {
                Some(kind) => kind,
                None => {
                    return Err(Error::UnsupportedColumn { pos: j });
                },
            };
            names.push(fields[j].name.clone());
            kinds.push(kind);
            columns.push(ColumnBuilder::new(kind));
            j = j + 1;
        }
        let encoder = MemoryLogRecordsArrowBuilder {
            schema_id,
            names,
            kinds,
            columns,
            records_count: 0,
            max_records,
            bytes: 0,
            is_closed: false,
            rows: Ghost(Seq::empty()),
        };
        proof {
            let schema = schema_of(*row_type).unwrap();
            assert(encoder@.names =~= Seq::new(schema.len(), |j: int| schema[j].0));
            assert(encoder@.kinds =~= Seq::new(schema.len(), |j: int| schema[j].1));
            assert forall|j: int| 0 <= j < encoder.columns@.len() implies {
                &&& (#[trigger] encoder.columns@[j]).kind() == encoder.kinds@[j]
                &&& encoder.columns@[j]@ == encoder@.column(j)
                &&& data_len(encoder.columns@[j]@) <= encoder.bytes
            } by {
                assert(encoder.columns@[j]@ =~= encoder@.column(j));
            }
        }
        Ok(encoder)
    }

    /// Takes a row: appends each of its values to the column at its position.
    ///
    /// The row is taken or refused as a whole. A refused row leaves the
    /// encoder as it was, and the error says why it was refused.
    pub fn append(&mut self, row: &GenericRow<'_>) -> (r: Result<(), Error>)
        requires
            old(self).wf(),
        ensures
            final(self).wf(),
            match old(self)@.rejection(row@) {
                Some(e) => r matches Err(x) && x == e && final(self)@ == old(self)@,
                None => r is Ok && final(self)@ == old(self)@.with_row(row_cells(row@)),
            },
    {
        if self.is_closed {
            return Err(Error::EncoderClosed);
        }
        if self.records_count >= self.max_records {
            return Err(Error::EncoderFull);
        }
        let n = self.kinds.len();
        if row.values.len() != n {
            return Err(
                Error::FieldCountMismatch { schema_fields: n, row_fields: row.values.len() },
            );
        }
        let ghost cells = row_cells(row@);
        let mut j: usize = 0;
        while j < n
            invariant
                j <= n,
                *self == *old(self),
                self.wf(),
                !self.is_closed,
                self.records_count < self.max_records,
                n == self.kinds@.len(),
                n == row.values@.len(),
                misfit_from(self.kinds@, row@, 0) == misfit_from(self.kinds@, row@, j as int),
                forall|k: int| 0 <= k < j ==> (#[trigger] row@[k]).fits(self.kinds@[k]),
            decreases n - j,
        {
            if row.values[j].column_kind() != Some(self.kinds[j]) {
                return Err(Error::RowConvertError { value: row.values[j].kind() });
            }
            j = j + 1;
        }
        let room = MAX_COLUMN_DATA - self.bytes;
        let mut need: usize = 0;
        j = 0;
        while j < n
            invariant
                j <= n,
                *self == *old(self),
                self.wf(),
                !self.is_closed,
                self.records_count < self.max_records,
                n == self.kinds@.len(),
                n == row.values@.len(),
                misfit_from(self.kinds@, row@, 0) == n,
                cells == row_cells(row@),
                forall|k: int| 0 <= k < n ==> (#[trigger] row@[k]).cell() is Some,
                need == prefix_size(cells, j as int),
                need <= room,
                room == MAX_COLUMN_DATA - self.bytes,
            decreases n - j,
        {
            assert(row@[j as int].cell() is Some);
            match cell_width(&row.values[j], room - need) {
                Some(width) => {
                    need = need + width;
                },
                None => {
                    proof {
                        lemma_prefix_size_grows(cells, j as int + 1, n as int);
                    }
                    return Err(Error::RecordTooLarge);
                },
            }
            j = j + 1;
        }
        j = 0;
        while j < n
            invariant
                j <= n,
                old(self).wf(),
                n == row.values@.len(),
                n == self.columns@.len(),
                n == old(self).columns@.len(),
                cells == row_cells(row@),
                need == cells_size(cells),
                old(self).bytes + need <= MAX_COLUMN_DATA,
                forall|k: int| 0 <= k < n ==> (#[trigger] row@[k]).fits(old(self).kinds@[k]),
                self.schema_id == old(self).schema_id,
                self.names == old(self).names,
                self.kinds == old(self).kinds,
                self.records_count == old(self).records_count,
                self.max_records == old(self).max_records,
                self.bytes == old(self).bytes,
                self.is_closed == old(self).is_closed,
                self.rows == old(self).rows,
                forall|k: int|
                    0 <= k < j ==> old(self).columns@[k].extended_by(
                        cells[k],
                        #[trigger] self.columns@[k],
                    ),
                forall|k: int| j <= k < n ==> #[trigger] self.columns@[k] == old(self).columns@[k],
            decreases n - j,
        {
            proof {
                lemma_prefix_size_grows(cells, j as int, n as int);
            }
            if let Err(e) = row.values[j].append_to(&mut self.columns[j]) {
                return Err(e);
            }
            j = j + 1;
        }
        self.records_count = self.records_count + 1;
        self.bytes = self.bytes + need;
        self.rows = Ghost(self.rows@.push(cells));
        proof {
            lemma_rows_size_push(old(self).rows@, cells);
            assert forall|k: int| 0 <= k < self.columns@.len() implies {
                &&& (#[trigger] self.columns@[k]).kind() == self.kinds@[k]
                &&& self.columns@[k]@ == self@.column(k)
                &&& data_len(self.columns@[k]@) <= self.bytes
            } by {
                lemma_data_len_push(old(self).columns@[k]@, cells[k]);
                lemma_prefix_size_grows(cells, k, n as int);
            }
        }
        Ok(())
    }

    /// The identifier of the schema that this encoder is bound to.
    pub fn schema_id(&self) -> (id: i32)
        ensures
            id == self@.schema_id,
    {
        self.schema_id
    }

    /// The number of rows taken so far.
    pub fn records_count(&self) -> (n: usize)
        requires
            self.wf(),
        ensures
            n == self@.rows.len(),
    {
        self.records_count
    }

    /// Whether the encoder holds as many rows as it takes.
    pub fn is_full(&self) -> (full: bool)
        requires
            self.wf(),
        ensures
            full == self@.full(),
    {
        self.records_count >= self.max_records
    }

    /// Whether the encoder was closed.
    pub fn is_closed(&self) -> (closed: bool)
        ensures
            closed == self@.closed,
    {
        self.is_closed
    }

    /// Closes the encoder: from now on it takes no row.
    pub fn close(&mut self)
        requires
            old(self).wf(),
        ensures
            final(self).wf(),
            final(self)@ == old(self)@.closed_now(),
    {
        self.is_closed = true;
    }

    /// The estimated size in bytes of the rows taken so far. It is not zero
    /// once a row was taken.
    pub fn estimated_size_in_bytes(&self) -> (size: usize)
        requires
            self.wf(),
        ensures
            size == self@.size(),
            self@.rows.len() > 0 ==> size > 0,
    {
        proof {
            lemma_size_positive(self@);
        }
        self.bytes
    }

    /// Writes the rows taken so far as one payload.
    ///
    /// The payload is the Arrow IPC stream of the columns.
    pub fn build(&self) -> (r: Result<Vec<u8>, Error>)
        requires
            self.wf(),
        ensures
            match self@.payload() {
                Some(bytes) => r matches Ok(v) && v@ == bytes,
                None => r matches Err(e) && e == Error::EncodeFailed,
            },
    {
        proof {
            assert(crate::row::column::named_columns(self.names@, self.columns@)
                =~= self@.named_columns());
        }
        match encode_columns(&self.names, &self.columns) {
            Ok(bytes) => Ok(bytes),
            Err(_) => Err(Error::EncodeFailed),
        }
    }
}

} // verus!
