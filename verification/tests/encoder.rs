use arrow::array::{
    Array, BinaryArray, BooleanArray, Date32Array, Int16Array, Int32Array, Int64Array, StringArray,
    TimestampMicrosecondArray, TimestampMillisecondArray,
};
use arrow::datatypes::TimeUnit;
use arrow::datatypes::DataType as ArrowType;
use arrow::ipc::reader::StreamReader;
use arrow::record_batch::RecordBatch;
use fluss::error::Error;
use fluss::metadata::{DataField, DataType};
use fluss::record::{MemoryLogRecordsArrowBuilder, DEFAULT_MAX_RECORD};
use fluss::row::column::ColumnKind;
use fluss::row::datum::{Blob, Date, Datum, Decimal, Timestamp, TimestampLtz, ValueKind, F64};
use fluss::row::GenericRow;

fn field(name: &str, data_type: DataType) -> DataField {
    DataField { name: name.to_string(), data_type }
}

fn id_and_name() -> DataType {
    DataType::Row(vec![field("id", DataType::Int), field("name", DataType::String)])
}

fn row_of<'a>(id: i32, name: &'a str) -> GenericRow<'a> {
    let mut row = GenericRow::new();
    row.set_field(0, id);
    row.set_field(1, name);
    row
}

fn decode(payload: &[u8]) -> Vec<RecordBatch> {
    StreamReader::try_new(std::io::Cursor::new(payload), None)
        .unwrap()
        .map(|batch| batch.unwrap())
        .collect()
}

#[test]
fn types_map_to_column_kinds() {
    assert_eq!(DataType::TinyInt.to_column_kind(), Some(ColumnKind::Int8));
    assert_eq!(DataType::SmallInt.to_column_kind(), Some(ColumnKind::Int16));
    assert_eq!(DataType::Int.to_column_kind(), Some(ColumnKind::Int32));
    assert_eq!(DataType::String.to_column_kind(), Some(ColumnKind::Utf8));
    assert_eq!(DataType::Boolean.to_column_kind(), Some(ColumnKind::Bool));
    assert_eq!(DataType::BigInt.to_column_kind(), Some(ColumnKind::Int64));
    assert_eq!(DataType::Bytes.to_column_kind(), Some(ColumnKind::Binary));
    assert_eq!(DataType::Date.to_column_kind(), Some(ColumnKind::Date32));
    assert_eq!(DataType::Timestamp.to_column_kind(), Some(ColumnKind::TimestampMicros));
    assert_eq!(DataType::TimestampLtz.to_column_kind(), Some(ColumnKind::TimestampMillis));
    assert_eq!(DataType::Float.to_column_kind(), None);
    assert_eq!(DataType::Double.to_column_kind(), None);
    assert_eq!(DataType::Decimal.to_column_kind(), None);
    assert_eq!(DataType::Row(vec![]).to_column_kind(), None);
}

#[test]
fn encoder_is_made_for_a_row_type() {
    let encoder = MemoryLogRecordsArrowBuilder::new(7, &id_and_name()).unwrap();
    assert_eq!(encoder.schema_id(), 7);
    assert_eq!(encoder.records_count(), 0);
    assert_eq!(encoder.estimated_size_in_bytes(), 0);
    assert!(!encoder.is_closed());
    assert!(!encoder.is_full());
    assert_eq!(DEFAULT_MAX_RECORD, 256);
}

#[test]
fn encoder_refuses_what_is_not_a_writable_row_type() {
    assert_eq!(MemoryLogRecordsArrowBuilder::new(1, &DataType::Int).err(), Some(Error::NotARow));
    assert_eq!(
        MemoryLogRecordsArrowBuilder::new(
            1,
            &DataType::Row(vec![
                field("a", DataType::Int),
                field("b", DataType::Double),
                field("c", DataType::Decimal),
            ]),
        )
        .err(),
        Some(Error::UnsupportedColumn { pos: 1 })
    );
    assert_eq!(
        MemoryLogRecordsArrowBuilder::new(
            1,
            &DataType::Row(vec![field("nested", DataType::Row(vec![]))]),
        )
        .err(),
        Some(Error::UnsupportedColumn { pos: 0 })
    );
}

#[test]
fn round_trip_of_one_row() {
    let mut encoder = MemoryLogRecordsArrowBuilder::new(1, &id_and_name()).unwrap();
    assert_eq!(encoder.append(&row_of(42, "abc")), Ok(()));
    encoder.close();
    let payload = encoder.build().unwrap();
    let batches = decode(&payload);
    assert_eq!(batches.len(), 1);
    let batch = &batches[0];
    assert_eq!(batch.num_rows(), 1);
    assert_eq!(batch.num_columns(), 2);
    assert_eq!(batch.schema().field(0).name(), "id");
    assert_eq!(batch.schema().field(1).name(), "name");
    assert_eq!(batch.schema().field(0).data_type(), &ArrowType::Int32);
    assert_eq!(batch.schema().field(1).data_type(), &ArrowType::Utf8);
    let ids = batch.column(0).as_any().downcast_ref::<Int32Array>().unwrap();
    let names = batch.column(1).as_any().downcast_ref::<StringArray>().unwrap();
    assert_eq!(ids.len(), 1);
    assert_eq!(ids.value(0), 42);
    assert!(ids.is_valid(0));
    assert_eq!(names.len(), 1);
    assert_eq!(names.value(0), "abc");
}

#[test]
fn rows_come_out_in_the_order_they_went_in() {
    let row_type = DataType::Row(vec![
        field("s", DataType::SmallInt),
        field("i", DataType::Int),
        field("t", DataType::String),
    ]);
    let mut encoder = MemoryLogRecordsArrowBuilder::new(3, &row_type).unwrap();
    let texts = ["one", "", "three \u{e9}"];
    for (k, text) in texts.iter().enumerate() {
        let row = GenericRow {
            values: vec![Datum::Int16(k as i16 - 1), Datum::Int32(100 * k as i32), Datum::String(text)],
        };
        assert_eq!(encoder.append(&row), Ok(()));
    }
    assert_eq!(encoder.records_count(), 3);
    let batches = decode(&encoder.build().unwrap());
    assert_eq!(batches.len(), 1);
    let batch = &batches[0];
    assert_eq!(batch.num_rows(), 3);
    let shorts = batch.column(0).as_any().downcast_ref::<Int16Array>().unwrap();
    let ints = batch.column(1).as_any().downcast_ref::<Int32Array>().unwrap();
    let strings = batch.column(2).as_any().downcast_ref::<StringArray>().unwrap();
    for k in 0..3 {
        assert_eq!(shorts.value(k), k as i16 - 1);
        assert_eq!(ints.value(k), 100 * k as i32);
        assert_eq!(strings.value(k), texts[k]);
    }
}

#[test]
fn every_kind_of_column_comes_back() {
    let row_type = DataType::Row(vec![
        field("flag", DataType::Boolean),
        field("short", DataType::SmallInt),
        field("int", DataType::Int),
        field("long", DataType::BigInt),
        field("text", DataType::String),
        field("bytes", DataType::Bytes),
        field("day", DataType::Date),
        field("at", DataType::Timestamp),
        field("seen", DataType::TimestampLtz),
    ]);
    let mut encoder = MemoryLogRecordsArrowBuilder::new(9, &row_type).unwrap();
    for k in 0..2i64 {
        let row = GenericRow {
            values: vec![
                Datum::Bool(k == 0),
                Datum::Int16(-7 + k as i16),
                Datum::Int32(70_000 + k as i32),
                Datum::Int64(-5_000_000_000 + k),
                Datum::String(if k == 0 { "abc" } else { "" }),
                Datum::Blob(Blob::from(vec![0u8, 255, k as u8])),
                Datum::Date(Date::new(19_782 + k as i32)),
                Datum::Timestamp(Timestamp::new(946_684_800_000_000 + k)),
                Datum::TimestampTz(TimestampLtz::new(-1 - k)),
            ],
        };
        assert_eq!(encoder.append(&row), Ok(()));
    }
    assert_eq!(encoder.estimated_size_in_bytes(), 2 * (1 + 2 + 4 + 8 + 4 + 4 + 3 + 4 + 8 + 8) + 3);
    let batches = decode(&encoder.build().unwrap());
    assert_eq!(batches.len(), 1);
    let batch = &batches[0];
    assert_eq!(batch.num_rows(), 2);
    assert_eq!(batch.num_columns(), 9);
    assert_eq!(
        batch.schema().field(7).data_type(),
        &ArrowType::Timestamp(TimeUnit::Microsecond, None)
    );
    assert_eq!(
        batch.schema().field(8).data_type(),
        &ArrowType::Timestamp(TimeUnit::Millisecond, None)
    );
    let flags = batch.column(0).as_any().downcast_ref::<BooleanArray>().unwrap();
    let shorts = batch.column(1).as_any().downcast_ref::<Int16Array>().unwrap();
    let ints = batch.column(2).as_any().downcast_ref::<Int32Array>().unwrap();
    let longs = batch.column(3).as_any().downcast_ref::<Int64Array>().unwrap();
    let texts = batch.column(4).as_any().downcast_ref::<StringArray>().unwrap();
    let bytes = batch.column(5).as_any().downcast_ref::<BinaryArray>().unwrap();
    let days = batch.column(6).as_any().downcast_ref::<Date32Array>().unwrap();
    let ats = batch.column(7).as_any().downcast_ref::<TimestampMicrosecondArray>().unwrap();
    let seens = batch.column(8).as_any().downcast_ref::<TimestampMillisecondArray>().unwrap();
    for k in 0..2usize {
        assert_eq!(flags.value(k), k == 0);
        assert_eq!(shorts.value(k), -7 + k as i16);
        assert_eq!(ints.value(k), 70_000 + k as i32);
        assert_eq!(longs.value(k), -5_000_000_000 + k as i64);
        assert_eq!(texts.value(k), if k == 0 { "abc" } else { "" });
        assert_eq!(bytes.value(k), &[0u8, 255, k as u8]);
        assert_eq!(days.value(k), 19_782 + k as i32);
        assert_eq!(ats.value(k), 946_684_800_000_000 + k as i64);
        assert_eq!(seens.value(k), -1 - k as i64);
        assert!(flags.is_valid(k) && texts.is_valid(k) && bytes.is_valid(k));
    }
}

#[test]
fn values_that_no_column_takes_are_refused() {
    let row_type = DataType::Row(vec![field("long", DataType::BigInt)]);
    let mut encoder = MemoryLogRecordsArrowBuilder::new(1, &row_type).unwrap();
    for (datum, kind) in [
        (Datum::Null, ValueKind::Null),
        (Datum::Float64(F64::from_bits(0)), ValueKind::Float64),
        (Datum::Decimal(Decimal::new(1, 0).unwrap()), ValueKind::Decimal),
        (Datum::Int32(1), ValueKind::Int32),
    ] {
        let row = GenericRow { values: vec![datum] };
        assert_eq!(encoder.append(&row), Err(Error::RowConvertError { value: kind }));
    }
    assert_eq!(encoder.records_count(), 0);
}

#[test]
fn building_twice_gives_the_same_payload() {
    let mut encoder = MemoryLogRecordsArrowBuilder::new(1, &id_and_name()).unwrap();
    encoder.append(&row_of(1, "a")).unwrap();
    encoder.append(&row_of(2, "b")).unwrap();
    let first = encoder.build().unwrap();
    let second = encoder.build().unwrap();
    assert_eq!(first, second);
    let mut other = MemoryLogRecordsArrowBuilder::new(1, &id_and_name()).unwrap();
    other.append(&row_of(1, "a")).unwrap();
    other.append(&row_of(2, "b")).unwrap();
    assert_eq!(other.build().unwrap(), first);
    other.append(&row_of(3, "c")).unwrap();
    assert_ne!(other.build().unwrap(), first);
    assert_eq!(encoder.records_count(), 2);
}

#[test]
fn empty_batch_has_a_payload_without_rows() {
    let encoder = MemoryLogRecordsArrowBuilder::new(1, &id_and_name()).unwrap();
    let batches = decode(&encoder.build().unwrap());
    assert_eq!(batches.iter().map(|b| b.num_rows()).sum::<usize>(), 0);
}

#[test]
fn row_type_without_fields_is_refused() {
    assert_eq!(
        MemoryLogRecordsArrowBuilder::new(1, &DataType::Row(vec![])).err(),
        Some(Error::EmptyRow)
    );
    assert_eq!(
        MemoryLogRecordsArrowBuilder::with_max_records(1, &DataType::Row(vec![]), 4).err(),
        Some(Error::EmptyRow)
    );
}

#[test]
fn size_is_the_sum_of_the_cells() {
    let mut encoder = MemoryLogRecordsArrowBuilder::new(1, &id_and_name()).unwrap();
    encoder.append(&row_of(42, "abc")).unwrap();
    assert_eq!(encoder.estimated_size_in_bytes(), 4 + 4 + 3);
    encoder.append(&row_of(43, "")).unwrap();
    assert_eq!(encoder.estimated_size_in_bytes(), 11 + 4 + 4);
    encoder.append(&row_of(44, "\u{e9}")).unwrap();
    assert_eq!(encoder.estimated_size_in_bytes(), 19 + 4 + 4 + 2);
    let mut shorts =
        MemoryLogRecordsArrowBuilder::new(1, &DataType::Row(vec![field("s", DataType::SmallInt)]))
            .unwrap();
    shorts.append(&GenericRow { values: vec![Datum::Int16(1)] }).unwrap();
    assert_eq!(shorts.estimated_size_in_bytes(), 2);
}

#[test]
fn row_of_the_wrong_shape_is_refused_whole() {
    let mut encoder = MemoryLogRecordsArrowBuilder::new(1, &id_and_name()).unwrap();
    encoder.append(&row_of(1, "a")).unwrap();
    let before = encoder.build().unwrap();
    let short = GenericRow { values: vec![Datum::Int32(1)] };
    assert_eq!(
        encoder.append(&short),
        Err(Error::FieldCountMismatch { schema_fields: 2, row_fields: 1 })
    );
    let long = GenericRow { values: vec![Datum::Int32(1), Datum::String("a"), Datum::Null] };
    assert_eq!(
        encoder.append(&long),
        Err(Error::FieldCountMismatch { schema_fields: 2, row_fields: 3 })
    );
    let second_wrong = GenericRow { values: vec![Datum::Int32(1), Datum::Int32(2)] };
    assert_eq!(
        encoder.append(&second_wrong),
        Err(Error::RowConvertError { value: ValueKind::Int32 })
    );
    let both_wrong = GenericRow { values: vec![Datum::String("x"), Datum::Int64(2)] };
    let first_right = GenericRow { values: vec![Datum::Int32(5), Datum::Int64(2)] };
    assert_eq!(
        encoder.append(&first_right),
        Err(Error::RowConvertError { value: ValueKind::Int64 })
    );
    assert_eq!(
        encoder.append(&both_wrong),
        Err(Error::RowConvertError { value: ValueKind::String })
    );
    let null = GenericRow { values: vec![Datum::Int32(1), Datum::Null] };
    assert_eq!(encoder.append(&null), Err(Error::RowConvertError { value: ValueKind::Null }));
    assert_eq!(encoder.records_count(), 1);
    assert_eq!(encoder.estimated_size_in_bytes(), 9);
    assert_eq!(encoder.build().unwrap(), before);
    assert_eq!(encoder.append(&row_of(2, "b")), Ok(()));
    assert_eq!(decode(&encoder.build().unwrap())[0].num_rows(), 2);
}

#[test]
fn full_encoder_takes_no_row() {
    let mut encoder = MemoryLogRecordsArrowBuilder::with_max_records(1, &id_and_name(), 2).unwrap();
    assert!(!encoder.is_full());
    encoder.append(&row_of(1, "a")).unwrap();
    assert!(!encoder.is_full());
    encoder.append(&row_of(2, "b")).unwrap();
    assert!(encoder.is_full());
    assert_eq!(encoder.append(&row_of(3, "c")), Err(Error::EncoderFull));
    assert_eq!(encoder.records_count(), 2);
    let none = MemoryLogRecordsArrowBuilder::with_max_records(1, &id_and_name(), 0).unwrap();
    assert!(none.is_full());
}

#[test]
fn closed_encoder_takes_no_row() {
    let mut encoder = MemoryLogRecordsArrowBuilder::new(1, &id_and_name()).unwrap();
    encoder.append(&row_of(1, "a")).unwrap();
    encoder.close();
    assert!(encoder.is_closed());
    encoder.close();
    assert!(encoder.is_closed());
    assert_eq!(encoder.append(&row_of(2, "b")), Err(Error::EncoderClosed));
    assert_eq!(encoder.records_count(), 1);
    assert_eq!(decode(&encoder.build().unwrap())[0].num_rows(), 1);
}
