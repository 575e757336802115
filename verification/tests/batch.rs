use arrow::ipc::reader::StreamReader;
use fluss::client::write::broadcast::{Error as Lost, ReceiveStep};
use fluss::client::{ArrowLogWriteBatch, ResultHandle, WriteBatch, WriteRecord};
use fluss::error::Error;
use fluss::metadata::{DataField, DataType, TablePath};
use fluss::record::MemoryLogRecordsArrowBuilder;
use fluss::row::datum::{Datum, ValueKind};
use fluss::row::GenericRow;

fn int_column() -> DataType {
    DataType::Row(vec![DataField { name: "v".to_string(), data_type: DataType::Int }])
}

fn table() -> TablePath {
    TablePath::new("db".to_string(), "t".to_string())
}

fn batch_at(create_ms: i64) -> WriteBatch {
    WriteBatch::ArrowLog(ArrowLogWriteBatch::new(1, table(), 0, &int_column(), 0, create_ms).unwrap())
}

fn batch_of(max_records: usize) -> WriteBatch {
    let encoder =
        MemoryLogRecordsArrowBuilder::with_max_records(0, &int_column(), max_records).unwrap();
    WriteBatch::ArrowLog(ArrowLogWriteBatch::with_builder(1, table(), 0, 0, encoder))
}

fn record(v: i32) -> WriteRecord<'static> {
    let mut row = GenericRow::new();
    row.set_field(0, v);
    WriteRecord::new(row)
}

fn decoded_rows(payload: &[u8]) -> usize {
    StreamReader::try_new(std::io::Cursor::new(payload), None)
        .unwrap()
        .map(|batch| batch.unwrap().num_rows())
        .sum()
}

fn records_in(batch: &WriteBatch) -> usize {
    match batch {
        WriteBatch::ArrowLog(inner) => inner.arrow_builder.records_count(),
    }
}

#[test]
fn batch_keeps_its_identity() {
    let batch = WriteBatch::ArrowLog(
        ArrowLogWriteBatch::new(17, table(), 3, &int_column(), 5, 1_000).unwrap(),
    );
    assert_eq!(batch.batch_id(), 17);
    assert_eq!(batch.inner_batch().batch_id(), 17);
    assert_eq!(batch.inner_batch().bucket_id(), 5);
    assert_eq!(batch.inner_batch().table_path().database(), "db");
    assert_eq!(batch.inner_batch().table_path().table(), "t");
    assert_eq!(batch.inner_batch().drained_ms(), -1);
    assert!(!batch.inner_batch().is_completed());
    assert!(!batch.is_closed());
    match &batch {
        WriteBatch::ArrowLog(inner) => {
            assert_eq!(inner.batch_id(), 17);
            assert_eq!(inner.arrow_builder.schema_id(), 3);
        },
    }
}

#[test]
fn batch_is_refused_with_its_encoder() {
    assert_eq!(
        ArrowLogWriteBatch::new(1, table(), 0, &DataType::String, 0, 0).err(),
        Some(Error::NotARow)
    );
}

#[test]
fn closed_batch_accepts_nothing_and_leaves_the_encoder_alone() {
    let mut batch = batch_at(0);
    assert!(batch.try_append(&record(1)).unwrap().is_some());
    let size = batch.estimated_size_in_bytes();
    batch.close();
    assert!(batch.is_closed());
    let payload = batch.build().unwrap();
    for v in 0..10 {
        assert!(batch.try_append(&record(v)).unwrap().is_none());
    }
    let wrong = WriteRecord::new(GenericRow { values: vec![Datum::String("x")] });
    assert!(batch.try_append(&wrong).unwrap().is_none());
    assert_eq!(records_in(&batch), 1);
    assert_eq!(batch.estimated_size_in_bytes(), size);
    assert_eq!(batch.build().unwrap(), payload);
    batch.close();
    assert!(batch.is_closed());
    assert_eq!(batch.build().unwrap(), payload);
}

#[test]
fn waited_time_is_clamped_at_zero() {
    let batch = batch_at(1_000);
    assert_eq!(batch.waited_time_ms(999), 0);
    assert_eq!(batch.waited_time_ms(0), 0);
    assert_eq!(batch.waited_time_ms(i64::MIN), 0);
    assert_eq!(batch.waited_time_ms(1_000), 0);
    assert_eq!(batch.waited_time_ms(1_001), 1);
    assert_eq!(batch.waited_time_ms(4_500), 3_500);
    assert_eq!(batch.waited_time_ms(i64::MAX), i64::MAX - 1_000);
    let early = batch_at(-10);
    assert_eq!(early.waited_time_ms(-20), 0);
    assert_eq!(early.waited_time_ms(5), 15);
    assert_eq!(early.waited_time_ms(i64::MAX - 10), i64::MAX);
    assert_eq!(early.waited_time_ms(i64::MAX), i64::MAX);
    assert_eq!(batch_at(i64::MIN).waited_time_ms(i64::MAX), i64::MAX);
    assert_eq!(batch_at(i64::MAX).waited_time_ms(i64::MIN), 0);
}

#[test]
fn drained_mark_never_goes_back() {
    let mut batch = batch_at(0);
    assert_eq!(batch.inner_batch().drained_ms(), -1);
    batch.drained(5);
    assert_eq!(batch.inner_batch().drained_ms(), 5);
    batch.drained(3);
    assert_eq!(batch.inner_batch().drained_ms(), 5);
    batch.drained(5);
    assert_eq!(batch.inner_batch().drained_ms(), 5);
    batch.drained(8);
    assert_eq!(batch.inner_batch().drained_ms(), 8);
    batch.drained(-100);
    assert_eq!(batch.inner_batch().drained_ms(), 8);
    assert!(!batch.is_closed());
    assert!(batch.try_append(&record(1)).unwrap().is_some());
}

#[test]
fn three_rows_end_to_end() {
    let mut batch = batch_at(0);
    let handles: Vec<ResultHandle> =
        (0..3).map(|v| batch.try_append(&record(v)).unwrap().unwrap()).collect();
    for handle in &handles {
        assert_eq!(handle.result(), None);
        assert_eq!(handle.poll(), ReceiveStep::Wait);
    }
    assert_eq!(batch.estimated_size_in_bytes(), 12);
    batch.close();
    let payload = batch.build().unwrap();
    assert_eq!(decoded_rows(&payload), 3);
    batch.drained(10);
    assert!(batch.complete(Ok(())));
    assert!(batch.inner_batch().is_completed());
    for handle in &handles {
        assert_eq!(handle.result(), Some(Ok(Ok(()))));
        assert_eq!(handle.poll(), ReceiveStep::Done(Ok(Ok(()))));
        assert_eq!(handle.receiver().peek(), Some(Ok(Ok(()))));
        assert_eq!(handle.clone().result(), Some(Ok(Ok(()))));
    }
    drop(batch);
    for handle in &handles {
        assert_eq!(handle.result(), Some(Ok(Ok(()))));
    }
}

#[test]
fn second_completion_changes_nothing() {
    let mut batch = batch_at(0);
    let handle = batch.try_append(&record(1)).unwrap().unwrap();
    assert!(batch.complete(Err(Lost::Dropped)));
    assert!(!batch.complete(Ok(())));
    assert!(!batch.complete(Ok(())));
    assert_eq!(handle.result(), Some(Ok(Err(Lost::Dropped))));
    assert!(batch.inner_batch().is_completed());
}

#[test]
fn open_batch_can_be_completed() {
    let mut batch = batch_at(0);
    let handle = batch.try_append(&record(1)).unwrap().unwrap();
    assert!(batch.complete(Ok(())));
    assert!(!batch.is_closed());
    assert_eq!(handle.result(), Some(Ok(Ok(()))));
    let later = batch.try_append(&record(2)).unwrap().unwrap();
    assert_eq!(later.result(), Some(Ok(Ok(()))));
}

#[test]
fn discarded_batch_resolves_its_handles_to_the_error() {
    let mut batch = batch_at(0);
    let handle = batch.try_append(&record(1)).unwrap().unwrap();
    assert_eq!(handle.result(), None);
    drop(batch);
    assert_eq!(handle.result(), Some(Err(Lost::Dropped)));
    assert_eq!(handle.poll(), ReceiveStep::Done(Err(Lost::Dropped)));
}

#[test]
fn full_encoder_accepts_no_third_row() {
    let mut batch = batch_of(2);
    assert!(batch.try_append(&record(1)).unwrap().is_some());
    assert!(batch.try_append(&record(2)).unwrap().is_some());
    let size = batch.estimated_size_in_bytes();
    assert_eq!(size, 8);
    assert!(batch.try_append(&record(3)).unwrap().is_none());
    assert_eq!(records_in(&batch), 2);
    assert_eq!(batch.estimated_size_in_bytes(), size);
    assert!(!batch.is_closed());
    batch.close();
    assert_eq!(decoded_rows(&batch.build().unwrap()), 2);
}

#[test]
fn refused_row_is_an_error_and_the_batch_goes_on() {
    let mut batch = batch_at(0);
    let wrong = WriteRecord::new(GenericRow { values: vec![Datum::String("x")] });
    assert_eq!(
        batch.try_append(&wrong).err(),
        Some(Error::RowConvertError { value: ValueKind::String })
    );
    let empty = WriteRecord::new(GenericRow::new());
    assert_eq!(
        batch.try_append(&empty).err(),
        Some(Error::FieldCountMismatch { schema_fields: 1, row_fields: 0 })
    );
    assert_eq!(records_in(&batch), 0);
    assert!(batch.try_append(&record(1)).unwrap().is_some());
    batch.close();
    assert_eq!(decoded_rows(&batch.build().unwrap()), 1);
}

#[test]
fn open_batch_has_no_payload() {
    let mut batch = batch_at(0);
    batch.try_append(&record(1)).unwrap();
    assert_eq!(batch.build(), Err(Error::NotClosed));
    batch.close();
    assert!(batch.build().is_ok());
}

#[test]
fn batch_observes_what_its_handles_observe() {
    let mut batch = batch_at(0);
    let first = batch.try_append(&record(1)).unwrap().unwrap();
    let second = batch.try_append(&record(2)).unwrap().unwrap();
    assert_eq!(batch.outcome_for(&first), None);
    assert_eq!(batch.inner_batch().outcome_for(&second), None);
    batch.close();
    batch.drained(3);
    assert!(batch.complete(Ok(())));
    let third = batch.try_append(&record(3));
    assert!(third.unwrap().is_none());
    for handle in [&first, &second] {
        assert_eq!(batch.outcome_for(handle), Some(Ok(Ok(()))));
        assert_eq!(batch.outcome_for(handle), handle.result());
        assert_eq!(batch.inner_batch().outcome_for(handle), handle.result());
    }
    assert!(!batch.complete(Err(Lost::Dropped)));
    assert_eq!(batch.outcome_for(&first), Some(Ok(Ok(()))));
}
