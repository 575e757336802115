//! A batch of records for one bucket of a table, from the first record that
//! is appended to the outcome of sending it.
//!
//! A batch is open while it takes records. Once closed it takes none. It is
//! marked as drained when it is handed to the sender, and completed when the
//! outcome of sending it is known: the outcome then goes to every handle that
//! was given out for one of its records.

use crate::client::write::broadcast::{
    published, BatchWriteResult, BroadcastOnce, Result as Outcome,
};
use crate::client::write::cell::Shared;
use crate::client::{ResultHandle, WriteRecord};
use crate::error::{Error, Result};
use crate::metadata::{BucketId, DataType, TablePath};
use crate::record::{row_cells, EncoderModel, MemoryLogRecordsArrowBuilder};
use vstd::prelude::*;

verus! {

/// What is known of a batch apart from its records.
pub struct BatchModel {
    /// The number of the batch.
    pub batch_id: i64,
    /// The database and the table that the batch is for.
    pub table_path: (Seq<char>, Seq<char>),
    /// The bucket that the batch is for.
    pub bucket_id: BucketId,
    /// When the batch was created, in milliseconds.
    pub create_ms: i64,
    /// The latest time at which the batch was marked as drained, or `-1`
    /// while it was not.
    pub drained_ms: i64,
    /// Whether the outcome was delivered.
    pub completed: bool,
    /// What was delivered to the handles, if anything was.
    pub outcome: Option<Outcome<BatchWriteResult>>,
}

impl BatchModel {
    /// A batch that was just created: not drained, not completed.
    pub open spec fn fresh(
        batch_id: i64,
        table_path: (Seq<char>, Seq<char>),
        bucket_id: BucketId,
        create_ms: i64,
    ) -> BatchModel {
        BatchModel {
            batch_id,
            table_path,
            bucket_id,
            create_ms,
            drained_ms: -1i64,
            completed: false,
            outcome: None,
        }
    }

    /// The time that the batch has waited at the time `now`: the time since
    /// its creation, at least zero and at most what 64 bits hold.
    pub open spec fn waited(self, now: i64) -> int {
        if now - self.create_ms <= 0 {
            0
        } else if now - self.create_ms > i64::MAX {
            i64::MAX as int
        } else {
            now - self.create_ms
        }
    }

    /// This batch, marked as drained at the time `now_ms`: the later of that
    /// time and the mark that was there is kept.
    pub open spec fn drained(self, now_ms: i64) -> BatchModel {
        BatchModel {
            drained_ms: if self.drained_ms >= now_ms {
                self.drained_ms
            } else {
                now_ms
            },
            ..self
        }
    }

    /// This batch after `write_result` was handed in as its outcome: if none
    /// was delivered before, this one is; else nothing changes.
    pub open spec fn finished(self, write_result: BatchWriteResult) -> BatchModel {
        if self.completed {
            self
        } else {
            BatchModel {
                completed: true,
                outcome: published(self.outcome, write_result),
                ..self
            }
        }
    }
}

/// The mark of a batch that is drained twice is the latest of the mark it had
/// and the two times, in whichever order they come: the mark never goes back.
pub proof fn lemma_drained_keeps_latest(batch: BatchModel, first: i64, second: i64)
    ensures
        batch.drained(first).drained(second).drained_ms >= batch.drained(first).drained_ms,
        batch.drained(first).drained_ms >= batch.drained_ms,
        batch.drained(first).drained(second) == batch.drained(second).drained(first),
        first >= second && first >= batch.drained_ms ==> batch.drained(first).drained(
            second,
        ).drained_ms == first,
{
}

/// A batch is completed once: the first outcome that is handed in is the one
/// that is delivered, and whatever is handed in later changes nothing.
pub proof fn lemma_completed_once(
    batch: BatchModel,
    first: BatchWriteResult,
    second: BatchWriteResult,
)
    requires
        batch.completed == (batch.outcome is Some),
    ensures
        batch.finished(first).completed,
        batch.finished(first).finished(second) == batch.finished(first),
        !batch.completed ==> batch.finished(first).outcome == Some(
            Ok::<BatchWriteResult, crate::client::write::broadcast::Error>(first),
        ),
        batch.completed ==> batch.finished(first) == batch,
{
}

/// The part of a batch that does not depend on how records are encoded.
pub struct InnerWriteBatch {
    batch_id: i64,
    table_path: TablePath,
    create_ms: i64,
    bucket_id: BucketId,
    results: BroadcastOnce<BatchWriteResult>,
    completed: bool,
    drained_ms: i64,
}

impl View for InnerWriteBatch {
    type V = BatchModel;

    closed spec fn view(&self) -> BatchModel {
        BatchModel {
            batch_id: self.batch_id,
            table_path: self.table_path@,
            bucket_id: self.bucket_id,
            create_ms: self.create_ms,
            drained_ms: self.drained_ms,
            completed: self.completed,
            outcome: self.results@.cell,
        }
    }
}

impl InnerWriteBatch {
    /// What the batch shares with the handles on its outcome: through it the
    /// outcome reaches them.
    pub closed spec fn channel(&self) -> Shared<BatchWriteResult> {
        self.results.channel()
    }

    /// Whether the handles that waited for the outcome were woken.
    pub closed spec fn woken(&self) -> bool {
        self.results@.woken
    }

    /// Whether the batch is completed exactly when an outcome was delivered,
    /// and the handles that waited for a delivered outcome were woken.
    pub open spec fn wf(&self) -> bool {
        &&& self@.completed == (self@.outcome is Some)
        &&& self@.completed ==> self.woken()
    }

    fn new(batch_id: i64, table_path: TablePath, create_ms: i64, bucket_id: BucketId) -> (b: Self)
        ensures
            b.wf(),
            b@ == BatchModel::fresh(batch_id, table_path@, bucket_id, create_ms),
    {
        InnerWriteBatch {
            batch_id,
            table_path,
            create_ms,
            bucket_id,
            results: Default::default(),
            completed: false,
            drained_ms: -1,
        }
    }

    /// The number of the batch.
    pub fn batch_id(&self) -> (id: i64)
        ensures
            id == self@.batch_id,
    {
        self.batch_id
    }

    /// The table that the batch is for.
    pub fn table_path(&self) -> (path: &TablePath)
        ensures
            path@ == self@.table_path,
    {
        &self.table_path
    }

    /// The bucket that the batch is for.
    pub fn bucket_id(&self) -> (id: BucketId)
        ensures
            id == self@.bucket_id,
    {
        self.bucket_id
    }

    /// The latest time at which the batch was marked as drained, or `-1`.
    pub fn drained_ms(&self) -> (ms: i64)
        ensures
            ms == self@.drained_ms,
    {
        self.drained_ms
    }

    /// Whether the outcome was delivered.
    pub fn is_completed(&self) -> (completed: bool)
        ensures
            completed == self@.completed,
    {
        self.completed
    }

    /// The time in milliseconds that the batch has waited at the time `now`.
    /// It is zero if `now` is before the creation of the batch.
    pub fn waited_time_ms(&self, now: i64) -> (waited: i64)
        ensures
            waited == self@.waited(now),
            now < self@.create_ms ==> waited == 0,
    {
        if now <= self.create_ms {
            0
        } else if self.create_ms >= 0 || now <= i64::MAX + self.create_ms {
            now - self.create_ms
        } else {
            i64::MAX
        }
    }

    /// Hands in the outcome of sending the batch. The first outcome goes to
    /// every handle of the batch: it is put into the cell that they share
    /// with the batch, and those that wait are woken. A later one changes
    /// nothing. The answer says whether this outcome was delivered.
    pub fn complete(&mut self, write_result: BatchWriteResult) -> (delivered: bool)
        requires
            old(self).wf(),
        ensures
            final(self).wf(),
            delivered == !old(self)@.completed,
            final(self)@ == old(self)@.finished(write_result),
            final(self).channel() == old(self).channel(),
            final(self).woken(),
    {
        if self.completed {
            return false;
        }
        self.completed = true;
        self.results.broadcast(write_result);
        true
    }

    /// Marks the batch as drained at the time `now_ms`. The mark never goes
    /// back: the later of `now_ms` and the mark that is there is kept.
    pub fn drained(&mut self, now_ms: i64)
        ensures
            final(self)@ == old(self)@.drained(now_ms),
            final(self)@.drained_ms >= old(self)@.drained_ms,
            final(self)@.drained_ms >= now_ms,
            final(self).channel() == old(self).channel(),
            final(self).woken() == old(self).woken(),
    {
        if now_ms > self.drained_ms {
            self.drained_ms = now_ms;
        }
    }

    /// What `handle`, a handle of this batch, observes while the batch is
    /// borrowed: the outcome that the batch has delivered, if it has
    /// delivered one.
    pub fn outcome_for(&self, handle: &ResultHandle) -> (observed: Option<Outcome<BatchWriteResult>>)
        requires
            handle@.channel() == self.channel(),
        ensures
            observed == self@.outcome,
    {
        self.results.observed_by(handle.receiver())
    }

    /// A handle on the outcome of this batch: it observes what the batch
    /// delivers.
    fn handle(&self) -> (handle: ResultHandle)
        ensures
            handle@.channel() == self.channel(),
    {
        ResultHandle::new(self.results.receiver())
    }
}

/// A batch and the records it holds.
pub struct WriteBatchModel {
    /// The batch.
    pub batch: BatchModel,
    /// The encoder that holds the records.
    pub encoder: EncoderModel,
}

impl WriteBatchModel {
    /// What appending a row of the given values gives: nothing if the batch
    /// is closed or full; else the error by which the row is refused, if
    /// it is; else a handle.
    pub open spec fn refusal(self, values: Seq<crate::row::datum::Value>) -> Option<Error> {
        if self.encoder.closed || self.encoder.full() {
            None
        } else {
            self.encoder.rejection(values)
        }
    }

    /// Whether a row of the given values is taken.
    pub open spec fn takes(self, values: Seq<crate::row::datum::Value>) -> bool {
        !self.encoder.closed && !self.encoder.full() && self.encoder.rejection(values) is None
    }

    /// The batch after a row of the given values was offered: with the row,
    /// if it is taken, and the same if not.
    pub open spec fn offered(self, values: Seq<crate::row::datum::Value>) -> WriteBatchModel {
        if self.takes(values) {
            WriteBatchModel { encoder: self.encoder.with_row(row_cells(values)), ..self }
        } else {
            self
        }
    }

    /// The payload of the batch: an error while the batch is open, and else
    /// what the encoder writes.
    pub open spec fn payload(self) -> std::result::Result<Seq<u8>, Error> {
        if !self.encoder.closed {
            Err(Error::NotClosed)
        } else {
            match self.encoder.payload() {
                Some(bytes) => Ok(bytes),
                None => Err(Error::EncodeFailed),
            }
        }
    }
}

/// What can be done to a batch.
pub enum BatchOp {
    /// A row of the given values is offered.
    Append(Seq<crate::row::datum::Value>),
    /// The batch is closed.
    Close,
    /// The batch is marked as drained at the given time.
    Drained(i64),
    /// The given outcome is handed in.
    Complete(BatchWriteResult),
}

impl WriteBatchModel {
    /// The batch after `op` was done to it.
    pub open spec fn after(self, op: BatchOp) -> WriteBatchModel {
        match op {
            BatchOp::Append(values) => self.offered(values),
            BatchOp::Close => WriteBatchModel { encoder: self.encoder.closed_now(), ..self },
            BatchOp::Drained(now_ms) => WriteBatchModel {
                batch: self.batch.drained(now_ms),
                ..self
            },
            BatchOp::Complete(write_result) => WriteBatchModel {
                batch: self.batch.finished(write_result),
                ..self
            },
        }
    }
}

/// Whatever is done to a batch, its number, table, bucket, time of creation
/// and schema stay; a closed batch stays closed and keeps its records; the
/// drained mark does not go back; and a completed batch stays completed, with
/// the outcome that was delivered.
pub proof fn lemma_batch_moves_forward(batch: WriteBatchModel, op: BatchOp)
    requires
        batch.batch.completed == (batch.batch.outcome is Some),
    ensures
        batch.after(op).batch.batch_id == batch.batch.batch_id,
        batch.after(op).batch.table_path == batch.batch.table_path,
        batch.after(op).batch.bucket_id == batch.batch.bucket_id,
        batch.after(op).batch.create_ms == batch.batch.create_ms,
        batch.after(op).encoder.schema_id == batch.encoder.schema_id,
        batch.after(op).encoder.kinds == batch.encoder.kinds,
        batch.encoder.closed ==> batch.after(op).encoder.closed && batch.after(op).encoder.rows
            == batch.encoder.rows,
        batch.after(op).batch.drained_ms >= batch.batch.drained_ms,
        batch.batch.completed ==> batch.after(op).batch.completed && batch.after(op).batch.outcome
            == batch.batch.outcome,
        batch.after(op).batch.completed == (batch.after(op).batch.outcome is Some),
        batch.after(op).encoder.rows.len() >= batch.encoder.rows.len(),
{
}

/// A batch whose records are encoded as Arrow columns.
pub struct ArrowLogWriteBatch {
    pub write_batch: InnerWriteBatch,
    pub arrow_builder: MemoryLogRecordsArrowBuilder,
}

impl View for ArrowLogWriteBatch {
    type V = WriteBatchModel;

    open spec fn view(&self) -> WriteBatchModel {
        WriteBatchModel { batch: self.write_batch@, encoder: self.arrow_builder@ }
    }
}

impl ArrowLogWriteBatch {
    /// Whether the two parts of the batch are well formed.
    pub open spec fn wf(&self) -> bool {
        self.write_batch.wf() && self.arrow_builder.wf()
    }

    /// An open batch without records for the bucket `bucket_id` of the table
    /// `table_path`, created at the time `create_ms`, whose rows are of the
    /// type `row_type`. It is refused if an encoder for that type is.
    pub fn new(
        batch_id: i64,
        table_path: TablePath,
        schema_id: i32,
        row_type: &DataType,
        bucket_id: BucketId,
        create_ms: i64,
    ) -> (r: Result<Self>)
        ensures
            match crate::record::schema_of(*row_type) {
                Ok(schema) => r matches Ok(b) && b.wf() && b@.batch == BatchModel::fresh(batch_id, table_path@, bucket_id, create_ms) && b@.encoder == EncoderModel::empty(
                    schema_id,
                    schema,
                    crate::record::DEFAULT_MAX_RECORD as nat,
                ),
                Err(e) => r matches Err(x) && x == e,
            },
    {
        match MemoryLogRecordsArrowBuilder::new(schema_id, row_type) {
            Ok(arrow_builder) => Ok(
                Self::with_builder(batch_id, table_path, bucket_id, create_ms, arrow_builder),
            ),
            Err(e) => Err(e),
        }
    }

    /// A batch around an encoder that is there already, which may hold
    /// records or be closed.
    pub fn with_builder(
        batch_id: i64,
        table_path: TablePath,
        bucket_id: BucketId,
        create_ms: i64,
        arrow_builder: MemoryLogRecordsArrowBuilder,
    ) -> (b: Self)
        requires
            arrow_builder.wf(),
        ensures
            b.wf(),
            b.arrow_builder == arrow_builder,
            b@.batch == BatchModel::fresh(batch_id, table_path@, bucket_id, create_ms),
    {
        let base = InnerWriteBatch::new(batch_id, table_path, create_ms, bucket_id);
        Self { write_batch: base, arrow_builder }
    }

    /// The number of the batch.
    pub fn batch_id(&self) -> (id: i64)
        ensures
            id == self@.batch.batch_id,
    {
        self.write_batch.batch_id()
    }

    /// Offers a record to the batch.
    ///
    /// A batch that is closed or full does not take it: the answer is
    /// `Ok(None)`, and the encoder is not touched. Otherwise the row is
    /// taken, and the answer is a handle on the outcome of the batch, which
    /// shares with the batch what carries the outcome; or it is refused, with
    /// the error that says why, and the batch is as it was.
    pub fn try_append(&mut self, write_record: &WriteRecord<'_>) -> (r: Result<Option<ResultHandle>>)
        requires
            old(self).wf(),
        ensures
            final(self).wf(),
            final(self)@ == old(self)@.offered(write_record.row@),
            old(self)@.encoder.closed || old(self)@.encoder.full() ==> (r matches Ok(None))
                && final(self).arrow_builder == old(self).arrow_builder,
            match old(self)@.refusal(write_record.row@) {
                Some(e) => r matches Err(x) && x == e,
                None => r matches Ok(handle) && (handle is Some <==> old(self)@.takes(
                    write_record.row@,
                )),
            },
            final(self).write_batch == old(self).write_batch,
            r matches Ok(Some(handle)) ==> handle@.channel() == old(self).write_batch.channel(),
    {
        if self.arrow_builder.is_closed() || self.arrow_builder.is_full() {
            Ok(None)
        } else {
            match self.arrow_builder.append(&write_record.row) {
                Ok(()) => Ok(Some(self.write_batch.handle())),
                Err(e) => Err(e),
            }
        }
    }

    /// Writes the records of the batch as one payload. The batch must be
    /// closed: an open batch gives the error [`Error::NotClosed`].
    pub fn build(&self) -> (r: Result<Vec<u8>>)
        requires
            self.wf(),
        ensures
            match self@.payload() {
                Ok(bytes) => r matches Ok(v) && v@ == bytes,
                Err(e) => r matches Err(x) && x == e,
            },
    {
        if !self.arrow_builder.is_closed() {
            return Err(Error::NotClosed);
        }
        self.arrow_builder.build()
    }

    /// Whether the batch is closed.
    pub fn is_closed(&self) -> (closed: bool)
        ensures
            closed == self@.encoder.closed,
    {
        self.arrow_builder.is_closed()
    }

    /// Closes the batch: from now on it takes no record. Closing a closed
    /// batch changes nothing.
    pub fn close(&mut self)
        requires
            old(self).wf(),
        ensures
            final(self).wf(),
            final(self)@ == (WriteBatchModel {
                encoder: old(self)@.encoder.closed_now(),
                ..old(self)@
            }),
            final(self).write_batch == old(self).write_batch,
    {
        self.arrow_builder.close()
    }
}

/// A batch of records, whatever the way they are encoded.
pub enum WriteBatch {
    ArrowLog(ArrowLogWriteBatch),
}

impl View for WriteBatch {
    type V = WriteBatchModel;

    open spec fn view(&self) -> WriteBatchModel {
        match self {
            WriteBatch::ArrowLog(batch) => batch@,
        }
    }
}

impl WriteBatch {
    /// Whether the batch is well formed.
    pub open spec fn wf(&self) -> bool {
        match self {
            WriteBatch::ArrowLog(batch) => batch.wf(),
        }
    }

    /// The part of the batch that does not depend on the encoding.
    pub fn inner_batch(&self) -> (inner: &InnerWriteBatch)
        ensures
            inner@ == self@.batch,
            inner.wf() == self.inner_wf(),
    {
        match self {
            WriteBatch::ArrowLog(batch) => &batch.write_batch,
        }
    }

    /// What the batch shares with the handles on its outcome: through it the
    /// outcome reaches them.
    pub open spec fn channel(&self) -> Shared<BatchWriteResult> {
        match self {
            WriteBatch::ArrowLog(batch) => batch.write_batch.channel(),
        }
    }

    /// Whether the handles that waited for the outcome were woken.
    pub open spec fn woken(&self) -> bool {
        match self {
            WriteBatch::ArrowLog(batch) => batch.write_batch.woken(),
        }
    }

    /// Whether the encoder of this batch is the one of `before`, in the state
    /// it was in.
    pub open spec fn encoder_untouched(&self, before: WriteBatch) -> bool {
        match (self, before) {
            (WriteBatch::ArrowLog(batch), WriteBatch::ArrowLog(other)) => batch.arrow_builder
                == other.arrow_builder,
        }
    }

    /// Whether the part of the batch that does not depend on the encoding is
    /// well formed.
    pub open spec fn inner_wf(&self) -> bool {
        match self {
            WriteBatch::ArrowLog(batch) => batch.write_batch.wf(),
        }
    }

    /// Offers a record to the batch.
    ///
    /// A batch that is closed or full does not take it: the answer is
    /// `Ok(None)`, and the encoder is not touched. Otherwise the row is
    /// taken, and the answer is a handle on the outcome of the batch, which
    /// shares with the batch what carries the outcome; or it is refused, with
    /// the error that says why, and the batch is as it was.
    pub fn try_append(&mut self, write_record: &WriteRecord<'_>) -> (r: Result<Option<ResultHandle>>)
        requires
            old(self).wf(),
        ensures
            final(self).wf(),
            final(self)@ == old(self)@.offered(write_record.row@),
            old(self)@.encoder.closed || old(self)@.encoder.full() ==> (r matches Ok(None))
                && final(self).encoder_untouched(*old(self)),
            match old(self)@.refusal(write_record.row@) {
                Some(e) => r matches Err(x) && x == e,
                None => r matches Ok(handle) && (handle is Some <==> old(self)@.takes(
                    write_record.row@,
                )),
            },
            final(self).channel() == old(self).channel(),
            r matches Ok(Some(handle)) ==> handle@.channel() == old(self).channel(),
    {
        match self {
            WriteBatch::ArrowLog(batch) => batch.try_append(write_record),
        }
    }

    /// The time in milliseconds that the batch has waited at the time `now`.
    /// It is zero if `now` is before the creation of the batch.
    pub fn waited_time_ms(&self, now: i64) -> (waited: i64)
        ensures
            waited == self@.batch.waited(now),
            now < self@.batch.create_ms ==> waited == 0,
    {
        self.inner_batch().waited_time_ms(now)
    }

    /// Closes the batch: from now on it takes no record. Closing a closed
    /// batch changes nothing.
    pub fn close(&mut self)
        requires
            old(self).wf(),
        ensures
            final(self).wf(),
            final(self)@ == (WriteBatchModel {
                encoder: old(self)@.encoder.closed_now(),
                ..old(self)@
            }),
            final(self).channel() == old(self).channel(),
            final(self).woken() == old(self).woken(),
    {
        match self {
            WriteBatch::ArrowLog(batch) => {
                batch.close();
            },
        }
    }

    /// The estimated size in bytes of the records of the batch. It is not
    /// zero once a record was taken.
    pub fn estimated_size_in_bytes(&self) -> (size: i64)
        requires
            self.wf(),
        ensures
            size == self@.encoder.size(),
            self@.encoder.rows.len() > 0 ==> size > 0,
    {
        match self {
            WriteBatch::ArrowLog(batch) => {
                proof {
                    batch.arrow_builder.lemma_wf();
                }
                batch.arrow_builder.estimated_size_in_bytes() as i64
            },
        }
    }

    /// Whether the batch is closed.
    pub fn is_closed(&self) -> (closed: bool)
        ensures
            closed == self@.encoder.closed,
    {
        match self {
            WriteBatch::ArrowLog(batch) => batch.is_closed(),
        }
    }

    /// Marks the batch as drained at the time `now_ms`. The mark never goes
    /// back: the later of `now_ms` and the mark that is there is kept.
    /// Whether the batch is open or closed does not change.
    pub fn drained(&mut self, now_ms: i64)
        requires
            old(self).wf(),
        ensures
            final(self).wf(),
            final(self)@ == (WriteBatchModel {
                batch: old(self)@.batch.drained(now_ms),
                ..old(self)@
            }),
            final(self)@.batch.drained_ms >= old(self)@.batch.drained_ms,
            final(self).channel() == old(self).channel(),
            final(self).woken() == old(self).woken(),
    {
        match self {
            WriteBatch::ArrowLog(batch) => {
                batch.write_batch.drained(now_ms);
            },
        }
    }

    /// Writes the records of the batch as one payload. The batch must be
    /// closed: an open batch gives the error [`Error::NotClosed`].
    pub fn build(&self) -> (r: Result<Vec<u8>>)
        requires
            self.wf(),
        ensures
            match self@.payload() {
                Ok(bytes) => r matches Ok(v) && v@ == bytes,
                Err(e) => r matches Err(x) && x == e,
            },
    {
        match self {
            WriteBatch::ArrowLog(batch) => batch.build(),
        }
    }

    /// Hands in the outcome of sending the batch. The first outcome goes to
    /// every handle of the batch, those given out before and those given out
    /// after: it is put into the cell that they share with the batch, and
    /// those that wait are woken. A later one changes nothing. The answer says
    /// whether this outcome was delivered.
    pub fn complete(&mut self, write_result: BatchWriteResult) -> (delivered: bool)
        requires
            old(self).wf(),
        ensures
            final(self).wf(),
            delivered == !old(self)@.batch.completed,
            final(self)@ == (WriteBatchModel {
                batch: old(self)@.batch.finished(write_result),
                ..old(self)@
            }),
            final(self).channel() == old(self).channel(),
            final(self).woken(),
    {
        match self {
            WriteBatch::ArrowLog(batch) => batch.write_batch.complete(write_result),
        }
    }

    /// What `handle`, a handle of this batch, observes while the batch is
    /// borrowed: the outcome that the batch has delivered, if it has
    /// delivered one.
    pub fn outcome_for(&self, handle: &ResultHandle) -> (observed: Option<Outcome<BatchWriteResult>>)
        requires
            handle@.channel() == self.channel(),
        ensures
            observed == self@.batch.outcome,
    {
        match self {
            WriteBatch::ArrowLog(batch) => batch.write_batch.outcome_for(handle),
        }
    }

    /// The number of the batch.
    pub fn batch_id(&self) -> (id: i64)
        ensures
            id == self@.batch.batch_id,
    {
        self.inner_batch().batch_id()
    }
}

} // verus!
