use fluss::error::Error;
use fluss::row::column::{ColumnBuilder, ColumnKind};
use fluss::row::datum::{
    Blob, Date, Datum, Decimal, Timestamp, TimestampLtz, ToArrow, ValueKind, F64,
};

fn all_kinds() -> [ColumnKind; 10] {
    [
        ColumnKind::Bool,
        ColumnKind::Int8,
        ColumnKind::Int16,
        ColumnKind::Int32,
        ColumnKind::Int64,
        ColumnKind::Utf8,
        ColumnKind::Binary,
        ColumnKind::Date32,
        ColumnKind::TimestampMicros,
        ColumnKind::TimestampMillis,
    ]
}

#[test]
fn new_column_is_empty() {
    for kind in all_kinds() {
        assert_eq!(ColumnBuilder::new(kind).len(), 0);
    }
}

#[test]
fn numbers_go_into_the_builder_of_their_width() {
    let mut bytes = ColumnBuilder::new(ColumnKind::Int8);
    assert_eq!(7i8.append_to(&mut bytes), Ok(()));
    assert_eq!((-7i8).append_to(&mut bytes), Ok(()));
    assert_eq!(bytes.len(), 2);
    let mut shorts = ColumnBuilder::new(ColumnKind::Int16);
    assert_eq!(7i16.append_to(&mut shorts), Ok(()));
    assert_eq!(shorts.len(), 1);
    let mut ints = ColumnBuilder::new(ColumnKind::Int32);
    assert_eq!(7i32.append_to(&mut ints), Ok(()));
    assert_eq!(8i32.append_to(&mut ints), Ok(()));
    assert_eq!(9i32.append_to(&mut ints), Ok(()));
    assert_eq!(ints.len(), 3);
}

#[test]
fn strings_go_into_the_string_builder() {
    let mut column = ColumnBuilder::new(ColumnKind::Utf8);
    assert_eq!("abc".append_to(&mut column), Ok(()));
    assert_eq!("".append_to(&mut column), Ok(()));
    assert_eq!(column.len(), 2);
}

#[test]
fn a_builder_of_another_kind_refuses_the_value() {
    let mut column = ColumnBuilder::new(ColumnKind::Utf8);
    assert_eq!(
        7i32.append_to(&mut column),
        Err(Error::RowConvertError { value: ValueKind::Int32 })
    );
    assert_eq!(7i16.append_to(&mut column), Err(Error::RowConvertError { value: ValueKind::Int16 }));
    assert_eq!(7i8.append_to(&mut column), Err(Error::RowConvertError { value: ValueKind::Int8 }));
    assert_eq!(column.len(), 0);
    let mut ints = ColumnBuilder::new(ColumnKind::Int32);
    assert_eq!(
        "abc".append_to(&mut ints),
        Err(Error::RowConvertError { value: ValueKind::String })
    );
    assert_eq!(7i16.append_to(&mut ints), Err(Error::RowConvertError { value: ValueKind::Int16 }));
    assert_eq!(ints.len(), 0);
    let mut shorts = ColumnBuilder::new(ColumnKind::Int16);
    assert_eq!(7i32.append_to(&mut shorts), Err(Error::RowConvertError { value: ValueKind::Int32 }));
    assert_eq!(7i8.append_to(&mut shorts), Err(Error::RowConvertError { value: ValueKind::Int8 }));
    assert_eq!(shorts.len(), 0);
    let mut bytes = ColumnBuilder::new(ColumnKind::Int8);
    assert_eq!(7i16.append_to(&mut bytes), Err(Error::RowConvertError { value: ValueKind::Int16 }));
    assert_eq!(bytes.len(), 0);
}

#[test]
fn datum_goes_into_the_builder_of_its_kind() {
    let mut ints = ColumnBuilder::new(ColumnKind::Int32);
    assert_eq!(Datum::Int32(42).append_to(&mut ints), Ok(()));
    assert_eq!(ints.len(), 1);
    let mut shorts = ColumnBuilder::new(ColumnKind::Int16);
    assert_eq!(Datum::Int16(42).append_to(&mut shorts), Ok(()));
    assert_eq!(shorts.len(), 1);
    let mut strings = ColumnBuilder::new(ColumnKind::Utf8);
    assert_eq!(Datum::String("abc").append_to(&mut strings), Ok(()));
    assert_eq!(strings.len(), 1);
    assert_eq!(Datum::Int32(42).column_kind(), Some(ColumnKind::Int32));
    assert_eq!(Datum::Int16(42).column_kind(), Some(ColumnKind::Int16));
    assert_eq!(Datum::String("").column_kind(), Some(ColumnKind::Utf8));
    assert_eq!(Datum::Null.column_kind(), None);
    assert_eq!(Datum::Int64(1).column_kind(), Some(ColumnKind::Int64));
    assert_eq!(Datum::Bool(true).column_kind(), Some(ColumnKind::Bool));
    assert_eq!(Datum::Blob(Blob::from(vec![])).column_kind(), Some(ColumnKind::Binary));
    assert_eq!(Datum::Date(Date::new(0)).column_kind(), Some(ColumnKind::Date32));
    assert_eq!(
        Datum::Timestamp(Timestamp::new(0)).column_kind(),
        Some(ColumnKind::TimestampMicros)
    );
    assert_eq!(
        Datum::TimestampTz(TimestampLtz::new(0)).column_kind(),
        Some(ColumnKind::TimestampMillis)
    );
    assert_eq!(Datum::Float64(F64::from_bits(0)).column_kind(), None);
    assert_eq!(Datum::Decimal(Decimal::new(1, 0).unwrap()).column_kind(), None);
}

#[test]
fn each_kind_of_value_goes_into_exactly_one_kind_of_column() {
    let values = [
        (Datum::Bool(true), Some(ColumnKind::Bool), ValueKind::Bool),
        (Datum::Int16(1), Some(ColumnKind::Int16), ValueKind::Int16),
        (Datum::Int32(1), Some(ColumnKind::Int32), ValueKind::Int32),
        (Datum::Int64(1), Some(ColumnKind::Int64), ValueKind::Int64),
        (Datum::String("s"), Some(ColumnKind::Utf8), ValueKind::String),
        (Datum::Blob(Blob::from(vec![1u8, 2])), Some(ColumnKind::Binary), ValueKind::Blob),
        (Datum::Date(Date::new(3)), Some(ColumnKind::Date32), ValueKind::Date),
        (
            Datum::Timestamp(Timestamp::new(4)),
            Some(ColumnKind::TimestampMicros),
            ValueKind::Timestamp,
        ),
        (
            Datum::TimestampTz(TimestampLtz::new(5)),
            Some(ColumnKind::TimestampMillis),
            ValueKind::TimestampTz,
        ),
        (Datum::Null, None, ValueKind::Null),
        (Datum::Float64(F64::from_bits(0)), None, ValueKind::Float64),
        (Datum::Decimal(Decimal::new(1, 0).unwrap()), None, ValueKind::Decimal),
    ];
    for (datum, target, kind) in &values {
        for column_kind in all_kinds() {
            let mut column = ColumnBuilder::new(column_kind);
            let result = datum.append_to(&mut column);
            if *target == Some(column_kind) {
                assert_eq!(result, Ok(()));
                assert_eq!(column.len(), 1);
            } else {
                assert_eq!(result, Err(Error::RowConvertError { value: *kind }));
                assert_eq!(column.len(), 0);
            }
        }
    }
}

#[test]
fn plain_values_go_into_their_builders() {
    let mut column = ColumnBuilder::new(ColumnKind::Bool);
    assert_eq!(true.append_to(&mut column), Ok(()));
    assert_eq!(7i64.append_to(&mut column), Err(Error::RowConvertError { value: ValueKind::Int64 }));
    assert_eq!(column.len(), 1);
    let mut column = ColumnBuilder::new(ColumnKind::Int64);
    assert_eq!(7i64.append_to(&mut column), Ok(()));
    assert_eq!(true.append_to(&mut column), Err(Error::RowConvertError { value: ValueKind::Bool }));
    assert_eq!(7i32.append_to(&mut column), Err(Error::RowConvertError { value: ValueKind::Int32 }));
    assert_eq!(column.len(), 1);
    let mut column = ColumnBuilder::new(ColumnKind::Binary);
    assert_eq!(Blob::from(vec![1u8]).append_to(&mut column), Ok(()));
    assert_eq!("s".append_to(&mut column), Err(Error::RowConvertError { value: ValueKind::String }));
    assert_eq!(column.len(), 1);
    let mut column = ColumnBuilder::new(ColumnKind::Date32);
    assert_eq!(Date::new(1).append_to(&mut column), Ok(()));
    assert_eq!(1i32.append_to(&mut column), Err(Error::RowConvertError { value: ValueKind::Int32 }));
    assert_eq!(column.len(), 1);
    let mut column = ColumnBuilder::new(ColumnKind::TimestampMicros);
    assert_eq!(Timestamp::new(1).append_to(&mut column), Ok(()));
    assert_eq!(
        TimestampLtz::new(1).append_to(&mut column),
        Err(Error::RowConvertError { value: ValueKind::TimestampTz })
    );
    assert_eq!(column.len(), 1);
    let mut column = ColumnBuilder::new(ColumnKind::TimestampMillis);
    assert_eq!(TimestampLtz::new(1).append_to(&mut column), Ok(()));
    assert_eq!(
        Timestamp::new(1).append_to(&mut column),
        Err(Error::RowConvertError { value: ValueKind::Timestamp })
    );
    assert_eq!(1i64.append_to(&mut column), Err(Error::RowConvertError { value: ValueKind::Int64 }));
    assert_eq!(column.len(), 1);
}

#[test]
fn datum_of_another_kind_is_refused() {
    let mut ints = ColumnBuilder::new(ColumnKind::Int32);
    assert_eq!(
        Datum::String("abc").append_to(&mut ints),
        Err(Error::RowConvertError { value: ValueKind::String })
    );
    assert_eq!(
        Datum::Int16(1).append_to(&mut ints),
        Err(Error::RowConvertError { value: ValueKind::Int16 })
    );
    for (datum, kind) in [
        (Datum::Null, ValueKind::Null),
        (Datum::Bool(true), ValueKind::Bool),
        (Datum::Int64(1), ValueKind::Int64),
        (Datum::Float64(F64::from_bits(0)), ValueKind::Float64),
        (Datum::Blob(Blob::from(vec![1u8])), ValueKind::Blob),
        (Datum::Date(Date::new(1)), ValueKind::Date),
    ] {
        assert_eq!(datum.append_to(&mut ints), Err(Error::RowConvertError { value: kind }));
    }
    assert_eq!(ints.len(), 0);
}
