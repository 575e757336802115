use chrono::{Datelike, NaiveDate};
use fluss::row::datum::{
    Blob, BlobRef, Date, Datum, Timestamp, TimestampLtz, ValueKind, F64, UNIX_EPOCH_DAYS,
};

fn date_of(y: i32, m: u32, d: u32) -> Date {
    Date::new(NaiveDate::from_ymd_opt(y, m, d).unwrap().num_days_from_ce() - UNIX_EPOCH_DAYS)
}

#[test]
fn epoch_is_the_first_of_january_1970() {
    let epoch = Date::new(0);
    assert_eq!(epoch.get_inner(), 0);
    assert!(epoch.in_calendar());
    assert_eq!(epoch.year(), 1970);
    assert_eq!(epoch.month(), 1);
    assert_eq!(epoch.day(), 1);
    assert_eq!(epoch.year_month_day(), Some((1970, 1, 1)));
    assert_eq!(UNIX_EPOCH_DAYS, 719_163);
}

#[test]
fn dates_have_their_civil_parts() {
    for (y, m, d) in [
        (2024, 2, 29),
        (1969, 12, 31),
        (2000, 1, 1),
        (1, 1, 1),
        (0, 12, 31),
        (-44, 3, 15),
        (9999, 12, 31),
        (1999, 9, 3),
    ] {
        let date = date_of(y, m, d);
        assert!(date.in_calendar());
        assert_eq!(date.year(), y);
        assert_eq!(date.month(), m as i32);
        assert_eq!(date.day(), d as i32);
        assert_eq!(date.year_month_day(), Some((y, m as i32, d as i32)));
    }
    assert_eq!(Date::new(-1).year_month_day(), Some((1969, 12, 31)));
    assert_eq!(Date::new(19_782).year_month_day(), Some((2024, 2, 29)));
    assert_eq!(Date::new(730_000 - UNIX_EPOCH_DAYS).year_month_day(), Some((1999, 9, 3)));
}

#[test]
fn dates_beyond_the_calendar_have_no_parts() {
    let last = Date::new(NaiveDate::MAX.num_days_from_ce() - UNIX_EPOCH_DAYS);
    assert!(last.in_calendar());
    assert_eq!(last.year_month_day(), Some((NaiveDate::MAX.year(), 12, 31)));
    let after = Date::new(last.get_inner() + 1);
    assert!(!after.in_calendar());
    assert_eq!(after.year_month_day(), None);
    let first = Date::new(NaiveDate::MIN.num_days_from_ce() - UNIX_EPOCH_DAYS);
    assert!(first.in_calendar());
    assert_eq!(first.year_month_day(), Some((NaiveDate::MIN.year(), 1, 1)));
    let before = Date::new(first.get_inner() - 1);
    assert!(!before.in_calendar());
    assert!(!Date::new(i32::MAX).in_calendar());
    assert_eq!(Date::new(i32::MAX).year_month_day(), None);
    assert!(!Date::new(i32::MIN).in_calendar());
    assert!(!Date::new(100_000_000).in_calendar());
}

#[test]
fn timestamps_hold_their_number() {
    assert_eq!(Timestamp::new(946_684_800_000_000).get_inner(), 946_684_800_000_000);
    assert_eq!(TimestampLtz::new(-5).get_inner(), -5);
    assert_eq!(Timestamp::default().get_inner(), 0);
    assert_eq!(TimestampLtz::default().get_inner(), 0);
    assert_eq!(Date::default().get_inner(), 0);
    assert!(Timestamp::new(1) < Timestamp::new(2));
    assert!(Date::new(-1) < Date::new(0));
}

#[test]
fn blobs_hold_their_bytes() {
    let blob = Blob::from(vec![1u8, 2, 3]);
    assert_eq!(blob.as_bytes(), &[1u8, 2, 3]);
    assert_eq!(blob.to_vec(), vec![1u8, 2, 3]);
    assert_eq!(blob.as_blob_ref().as_ref(), &[1u8, 2, 3]);
    let bytes = [9u8, 8];
    let view = BlobRef::new(&bytes);
    assert_eq!(view.as_ref(), &[9u8, 8]);
    assert_eq!(view.as_ref().as_ptr(), bytes.as_ptr());
    assert_eq!(BlobRef::new(&[]).as_ref().len(), 0);
    assert!(Blob::default().as_bytes().is_empty());
}

#[test]
fn datum_knows_its_kind() {
    assert!(Datum::Null.is_null());
    assert!(!Datum::Int32(0).is_null());
    assert!(!Datum::String("").is_null());
    assert_eq!(Datum::String("abc").as_str(), "abc");
    assert_eq!(Datum::Null.kind(), ValueKind::Null);
    assert_eq!(Datum::Bool(true).kind(), ValueKind::Bool);
    assert_eq!(Datum::Int16(1).kind(), ValueKind::Int16);
    assert_eq!(Datum::Int32(1).kind(), ValueKind::Int32);
    assert_eq!(Datum::Int64(1).kind(), ValueKind::Int64);
    assert_eq!(Datum::Float64(F64::from_bits(0)).kind(), ValueKind::Float64);
    assert_eq!(Datum::String("").kind(), ValueKind::String);
    assert_eq!(Datum::Blob(Blob::from(vec![])).kind(), ValueKind::Blob);
    assert_eq!(Datum::Date(Date::new(0)).kind(), ValueKind::Date);
    assert_eq!(Datum::Timestamp(Timestamp::new(0)).kind(), ValueKind::Timestamp);
    assert_eq!(Datum::TimestampTz(TimestampLtz::new(0)).kind(), ValueKind::TimestampTz);
    assert_eq!(Datum::Null.rank(), 0);
    assert_eq!(Datum::TimestampTz(TimestampLtz::new(0)).rank(), 11);
}

#[test]
fn datum_converts_from_and_to_plain_values() {
    assert_eq!(Datum::from(42), Datum::Int32(42));
    assert_eq!(Datum::from("abc"), Datum::String("abc"));
    assert_eq!(Datum::from(None::<&()>), Datum::Null);
    assert_eq!(Datum::from(Some(&())), Datum::Null);
    assert_eq!(i32::try_from(&Datum::Int32(42)), Ok(42));
    assert_eq!(i32::try_from(&Datum::Int64(42)), Err(()));
    assert_eq!(i32::try_from(&Datum::String("42")), Err(()));
    assert_eq!(<&str>::try_from(&Datum::String("abc")), Ok("abc"));
    assert_eq!(<&str>::try_from(&Datum::Int32(1)), Err(()));
    assert_eq!(<&str>::try_from(&Datum::Null), Err(()));
}

#[test]
fn kinds_have_names() {
    assert_eq!(ValueKind::Int8.value_name(), "i8");
    assert_eq!(ValueKind::Int16.value_name(), "i16");
    assert_eq!(ValueKind::Int32.value_name(), "i32");
    assert_eq!(ValueKind::String.value_name(), "&str");
    assert_eq!(ValueKind::Int8.builder_name(), "Int8Builder");
    assert_eq!(ValueKind::Int16.builder_name(), "Int16Builder");
    assert_eq!(ValueKind::Int32.builder_name(), "Int32Builder");
    assert_eq!(ValueKind::String.builder_name(), "StringBuilder");
    assert_eq!(ValueKind::Bool.value_name(), "bool");
    assert_eq!(ValueKind::Bool.builder_name(), "BooleanBuilder");
}
