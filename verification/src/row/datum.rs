//! The scalar values of a row: a tagged union over the supported kinds, the
//! small types that carry dates, timestamps, binary data, floating-point bit
//! patterns and decimals, and the total order on all of them.

pub use crate::row::decimal::Decimal;
pub use crate::row::float::{F32, F64};

use crate::error::Error;
use crate::row::column::{
    push_bool, push_bytes, push_date, push_i16, push_i32, push_i64, push_i8, push_micros,
    push_millis, push_str, Cell, ColumnBuilder, ColumnKind,
};
use crate::row::order::{
    bytes_order, compare_bytes, int_order, lemma_bytes_order_from_antisymmetric,
    lemma_bytes_order_from_equal, lemma_bytes_order_from_reflexive,
    lemma_bytes_order_from_transitive, lemma_decimal_order_transitive, ordering_of,
    sign_to_ordering,
};
use std::cmp::Ordering;
use vstd::prelude::*;
use vstd::string::*;
use vstd::utf8::{encode_utf8, encode_utf8_decode_utf8};

verus! {

/// Day number, counted from the first day of year 1, of 1970-01-01.
pub const UNIX_EPOCH_DAYS: i32 = 719_163;

/// A calendar date, as a number of days since 1970-01-01.
#[derive(PartialOrd, Ord, PartialEq, Eq, Structural, Debug, Copy, Clone, Default, Hash)]
pub struct Date(i32);

/// A point in time without a zone, in microseconds since the epoch.
#[derive(PartialOrd, Ord, PartialEq, Eq, Structural, Debug, Copy, Clone, Default, Hash)]
pub struct Timestamp(i64);

/// A point in time in the local zone, in milliseconds since the epoch.
#[derive(PartialOrd, Ord, PartialEq, Eq, Structural, Debug, Copy, Clone, Default, Hash)]
pub struct TimestampLtz(i64);

impl View for Date {
    type V = i32;

    /// The number of days since 1970-01-01.
    closed spec fn view(&self) -> i32 {
        self.0
    }
}

impl View for Timestamp {
    type V = i64;

    /// The number of microseconds since the epoch.
    closed spec fn view(&self) -> i64 {
        self.0
    }
}

impl View for TimestampLtz {
    type V = i64;

    /// The number of milliseconds since the epoch.
    closed spec fn view(&self) -> i64 {
        self.0
    }
}

impl Date {
    /// The date `inner` days after 1970-01-01 (before it, if negative).
    pub fn new(inner: i32) -> (d: Self)
        ensures
            d@ == inner,
    {
        Date(inner)
    }

    /// The number of days since 1970-01-01.
    pub fn get_inner(&self) -> (inner: i32)
        ensures
            inner == self@,
    {
        self.0
    }
}

/// The date in the proleptic Gregorian calendar of the day with the given
/// number, where day 1 is January 1 of year 1: the year, the month and the day
/// of the month. There is none where the calendar of `chrono` does not reach.
pub uninterp spec fn civil_date(days_from_ce: int) -> Option<(i32, u32, u32)>;

/// Calls `chrono::NaiveDate::from_num_days_from_ce_opt` and, where that gives
/// a date, `year`, `month` and `day` of `chrono::Datelike` on it.
///
/// The result depends on the day number alone. Months are counted from 1 to
/// 12 and days of the month from 1 to 31.
#[verifier::external_body]
fn civil_from_days(days_from_ce: i32) -> (r: Option<(i32, u32, u32)>)
    ensures
        r == civil_date(days_from_ce as int),
        r matches Some((_, m, d)) ==> 1 <= m <= 12 && 1 <= d <= 31,
{
    match chrono::NaiveDate::from_num_days_from_ce_opt(days_from_ce) {
        Some(date) => Some(
            (
                chrono::Datelike::year(&date),
                chrono::Datelike::month(&date),
                chrono::Datelike::day(&date),
            ),
        ),
        None => None,
    }
}

impl Date {
    /// The year, month and day of the month of this date, where its day
    /// number fits 32 bits and the calendar reaches it.
    pub open spec fn civil(self) -> Option<(i32, u32, u32)> {
        if self@ + UNIX_EPOCH_DAYS <= i32::MAX {
            civil_date(self@ + UNIX_EPOCH_DAYS)
        } else {
            None
        }
    }

    fn lookup(&self) -> (r: Option<(i32, u32, u32)>)
        ensures
            r == self.civil(),
            r matches Some((_, m, d)) ==> 1 <= m <= 12 && 1 <= d <= 31,
    {
        match self.0.checked_add(UNIX_EPOCH_DAYS) {
            Some(days) => civil_from_days(days),
            None => None,
        }
    }

    /// Whether this date has a year, a month and a day in the calendar.
    pub fn in_calendar(&self) -> (b: bool)
        ensures
            b == (self.civil() is Some),
    {
        self.lookup().is_some()
    }

    /// The year of this date.
    pub fn year(&self) -> (y: i32)
        requires
            self.civil() is Some,
        ensures
            y == self.civil().unwrap().0,
    {
        match self.lookup() {
            Some((y, _, _)) => y,
            None => 0,
        }
    }

    /// The month of this date, from 1 to 12.
    pub fn month(&self) -> (m: i32)
        requires
            self.civil() is Some,
        ensures
            m == self.civil().unwrap().1,
            1 <= m <= 12,
    {
        match self.lookup() {
            Some((_, m, _)) => m as i32,
            None => 0,
        }
    }

    /// The day of the month of this date, from 1 to 31.
    pub fn day(&self) -> (d: i32)
        requires
            self.civil() is Some,
        ensures
            d == self.civil().unwrap().2,
            1 <= d <= 31,
    {
        match self.lookup() {
            Some((_, _, d)) => d as i32,
            None => 0,
        }
    }

    /// The year, month and day of the month of this date, or nothing where
    /// the calendar does not reach it.
    pub fn year_month_day(&self) -> (r: Option<(i32, i32, i32)>)
        ensures
            r is Some <==> self.civil() is Some,
            r matches Some((y, m, d)) ==> {
                &&& y == self.civil().unwrap().0
                &&& m == self.civil().unwrap().1
                &&& d == self.civil().unwrap().2
            },
    {
        if self.in_calendar() {
            Some((self.year(), self.month(), self.day()))
        } else {
            None
        }
    }
}

impl Timestamp {
    /// The instant `micros` microseconds after the epoch.
    pub fn new(micros: i64) -> (t: Self)
        ensures
            t@ == micros,
    {
        Timestamp(micros)
    }

    /// The number of microseconds since the epoch.
    pub fn get_inner(&self) -> (micros: i64)
        ensures
            micros == self@,
    {
        self.0
    }
}

impl TimestampLtz {
    /// The instant `millis` milliseconds after the epoch.
    pub fn new(millis: i64) -> (t: Self)
        ensures
            t@ == millis,
    {
        TimestampLtz(millis)
    }

    /// The number of milliseconds since the epoch.
    pub fn get_inner(&self) -> (millis: i64)
        ensures
            millis == self@,
    {
        self.0
    }
}

/// An owned sequence of bytes.
#[derive(PartialEq, Eq, PartialOrd, Ord, Hash, Clone, Debug, Default)]
pub struct Blob(Vec<u8>);

/// A borrowed view of a sequence of bytes.
#[derive(PartialEq, Eq, PartialOrd, Ord, Hash, Clone, Copy, Debug)]
pub struct BlobRef<'a>(&'a [u8]);

impl View for Blob {
    type V = Seq<u8>;

    closed spec fn view(&self) -> Seq<u8> {
        self.0@
    }
}

impl<'a> View for BlobRef<'a> {
    type V = Seq<u8>;

    closed spec fn view(&self) -> Seq<u8> {
        self.0@
    }
}

impl Blob {
    /// The bytes of this blob, borrowed.
    pub fn as_blob_ref(&self) -> (r: BlobRef<'_>)
        ensures
            r@ == self@,
    {
        BlobRef(self.0.as_slice())
    }

    /// The bytes of this blob as a slice.
    pub fn as_bytes(&self) -> (bytes: &[u8])
        ensures
            bytes@ == self@,
    {
        self.0.as_slice()
    }

    /// A copy of the bytes of this blob.
    pub fn to_vec(&self) -> (bytes: Vec<u8>)
        ensures
            bytes@ == self@,
    {
        vstd::slice::slice_to_vec(self.0.as_slice())
    }
}

impl<'a> BlobRef<'a> {
    /// Views `bytes` as a blob, without copying.
    pub fn new(bytes: &'a [u8]) -> (r: Self)
        ensures
            r@ == bytes@,
    {
        BlobRef(bytes)
    }

    /// The bytes viewed.
    pub fn as_ref(&self) -> (bytes: &'a [u8])
        ensures
            bytes@ == self@,
    {
        self.0
    }
}

impl From<Vec<u8>> for Blob {
    fn from(vec: Vec<u8>) -> (b: Self)
        ensures
            b@ == vec@,
    {
        Blob(vec)
    }
}

impl vstd::std_specs::convert::FromSpecImpl<Vec<u8>> for Blob {
    open spec fn obeys_from_spec() -> bool {
        true
    }

    closed spec fn from_spec(vec: Vec<u8>) -> Self {
        Blob(vec)
    }
}

/// The kinds of scalar value that a row can be asked for.
#[derive(Debug, Clone, Copy, PartialEq, Eq, Structural, Hash)]
pub enum ValueKind {
    Null,
    Bool,
    Int8,
    Int16,
    Int32,
    Int64,
    Float32,
    Float64,
    String,
    Blob,
    Decimal,
    Date,
    Timestamp,
    TimestampTz,
}

impl ValueKind {
    /// The name of the type of the values of this kind.
    pub open spec fn spec_value_name(self) -> Seq<char> {
        match self {
            ValueKind::Null => "null"@,
            ValueKind::Bool => "bool"@,
            ValueKind::Int8 => "i8"@,
            ValueKind::Int16 => "i16"@,
            ValueKind::Int32 => "i32"@,
            ValueKind::Int64 => "i64"@,
            ValueKind::Float32 => "f32"@,
            ValueKind::Float64 => "f64"@,
            ValueKind::String => "&str"@,
            ValueKind::Blob => "Blob"@,
            ValueKind::Decimal => "Decimal"@,
            ValueKind::Date => "Date"@,
            ValueKind::Timestamp => "Timestamp"@,
            ValueKind::TimestampTz => "TimestampLtz"@,
        }
    }

    /// The name of the one kind of Arrow builder that values of this kind go
    /// into.
    pub open spec fn spec_builder_name(self) -> Seq<char> {
        match self {
            ValueKind::Null => "NullBuilder"@,
            ValueKind::Bool => "BooleanBuilder"@,
            ValueKind::Int8 => "Int8Builder"@,
            ValueKind::Int16 => "Int16Builder"@,
            ValueKind::Int32 => "Int32Builder"@,
            ValueKind::Int64 => "Int64Builder"@,
            ValueKind::Float32 => "Float32Builder"@,
            ValueKind::Float64 => "Float64Builder"@,
            ValueKind::String => "StringBuilder"@,
            ValueKind::Blob => "BinaryBuilder"@,
            ValueKind::Decimal => "Decimal128Builder"@,
            ValueKind::Date => "Date32Builder"@,
            ValueKind::Timestamp => "TimestampMicrosecondBuilder"@,
            ValueKind::TimestampTz => "TimestampMillisecondBuilder"@,
        }
    }

    /// The name of the type of the values of this kind.
    pub fn value_name(self) -> (name: &'static str)
        ensures
            name@ == self.spec_value_name(),
    {
        match self {
            ValueKind::Null => "null",
            ValueKind::Bool => "bool",
            ValueKind::Int8 => "i8",
            ValueKind::Int16 => "i16",
            ValueKind::Int32 => "i32",
            ValueKind::Int64 => "i64",
            ValueKind::Float32 => "f32",
            ValueKind::Float64 => "f64",
            ValueKind::String => "&str",
            ValueKind::Blob => "Blob",
            ValueKind::Decimal => "Decimal",
            ValueKind::Date => "Date",
            ValueKind::Timestamp => "Timestamp",
            ValueKind::TimestampTz => "TimestampLtz",
        }
    }

    /// The name of the one kind of Arrow builder that values of this kind go
    /// into.
    pub fn builder_name(self) -> (name: &'static str)
        ensures
            name@ == self.spec_builder_name(),
    {
        match self {
            ValueKind::Null => "NullBuilder",
            ValueKind::Bool => "BooleanBuilder",
            ValueKind::Int8 => "Int8Builder",
            ValueKind::Int16 => "Int16Builder",
            ValueKind::Int32 => "Int32Builder",
            ValueKind::Int64 => "Int64Builder",
            ValueKind::Float32 => "Float32Builder",
            ValueKind::Float64 => "Float64Builder",
            ValueKind::String => "StringBuilder",
            ValueKind::Blob => "BinaryBuilder",
            ValueKind::Decimal => "Decimal128Builder",
            ValueKind::Date => "Date32Builder",
            ValueKind::Timestamp => "TimestampMicrosecondBuilder",
            ValueKind::TimestampTz => "TimestampMillisecondBuilder",
        }
    }
}

/// One scalar value of a row. A string is borrowed from the storage that the
/// row was read from.
#[derive(Debug, Clone, Eq)]
pub enum Datum<'a> {
    Null,
    Bool(bool),
    Int16(i16),
    Int32(i32),
    Int64(i64),
    Float64(F64),
    String(&'a str),
    Blob(Blob),
    Decimal(Decimal),
    Date(Date),
    Timestamp(Timestamp),
    TimestampTz(TimestampLtz),
}

/// What a [`Datum`] stands for: the same union, with a string as its
/// characters and a blob as its bytes.
pub enum Value {
    Null,
    Bool(bool),
    Int16(i16),
    Int32(i32),
    Int64(i64),
    Float64(F64),
    String(Seq<char>),
    Blob(Seq<u8>),
    Decimal(Decimal),
    Date(Date),
    Timestamp(Timestamp),
    TimestampTz(TimestampLtz),
}

impl<'a> View for Datum<'a> {
    type V = Value;

    open spec fn view(&self) -> Value {
        match self {
            Datum::Null => Value::Null,
            Datum::Bool(v) => Value::Bool(*v),
            Datum::Int16(v) => Value::Int16(*v),
            Datum::Int32(v) => Value::Int32(*v),
            Datum::Int64(v) => Value::Int64(*v),
            Datum::Float64(v) => Value::Float64(*v),
            Datum::String(v) => Value::String(v@),
            Datum::Blob(v) => Value::Blob(v@),
            Datum::Decimal(v) => Value::Decimal(*v),
            Datum::Date(v) => Value::Date(*v),
            Datum::Timestamp(v) => Value::Timestamp(*v),
            Datum::TimestampTz(v) => Value::TimestampTz(*v),
        }
    }
}

impl Value {
    /// The kind of this value.
    pub open spec fn kind(self) -> ValueKind {
        match self {
            Value::Null => ValueKind::Null,
            Value::Bool(_) => ValueKind::Bool,
            Value::Int16(_) => ValueKind::Int16,
            Value::Int32(_) => ValueKind::Int32,
            Value::Int64(_) => ValueKind::Int64,
            Value::Float64(_) => ValueKind::Float64,
            Value::String(_) => ValueKind::String,
            Value::Blob(_) => ValueKind::Blob,
            Value::Decimal(_) => ValueKind::Decimal,
            Value::Date(_) => ValueKind::Date,
            Value::Timestamp(_) => ValueKind::Timestamp,
            Value::TimestampTz(_) => ValueKind::TimestampTz,
        }
    }

    /// The position of this value's variant in the union.
    pub open spec fn rank(self) -> int {
        match self {
            Value::Null => 0,
            Value::Bool(_) => 1,
            Value::Int16(_) => 2,
            Value::Int32(_) => 3,
            Value::Int64(_) => 4,
            Value::Float64(_) => 5,
            Value::String(_) => 6,
            Value::Blob(_) => 7,
            Value::Decimal(_) => 8,
            Value::Date(_) => 9,
            Value::Timestamp(_) => 10,
            Value::TimestampTz(_) => 11,
        }
    }

    /// Order of two values: `-1`, `0` or `1`.
    ///
    /// Values of different variants are ordered by the position of the
    /// variant. Within a variant: false before true; integers, dates and
    /// timestamps by their number; floating-point values by their key; strings
    /// by their UTF-8 bytes and blobs by their bytes, lexicographically;
    /// decimals by their numeric value.
    pub open spec fn order(self, other: Value) -> int {
        if self.rank() != other.rank() {
            int_order(self.rank(), other.rank())
        } else {
            match (self, other) {
                (Value::Bool(a), Value::Bool(b)) => int_order(
                    if a {
                        1
                    } else {
                        0
                    },
                    if b {
                        1
                    } else {
                        0
                    },
                ),
                (Value::Int16(a), Value::Int16(b)) => int_order(a as int, b as int),
                (Value::Int32(a), Value::Int32(b)) => int_order(a as int, b as int),
                (Value::Int64(a), Value::Int64(b)) => int_order(a as int, b as int),
                (Value::Float64(a), Value::Float64(b)) => int_order(a.key() as int, b.key() as int),
                (Value::String(a), Value::String(b)) => bytes_order(
                    encode_utf8(a),
                    encode_utf8(b),
                ),
                (Value::Blob(a), Value::Blob(b)) => bytes_order(a, b),
                (Value::Decimal(a), Value::Decimal(b)) => a.order(b),
                (Value::Date(a), Value::Date(b)) => int_order(a@ as int, b@ as int),
                (Value::Timestamp(a), Value::Timestamp(b)) => int_order(a@ as int, b@ as int),
                (Value::TimestampTz(a), Value::TimestampTz(b)) => int_order(
                    a@ as int,
                    b@ as int,
                ),
                _ => 0,
            }
        }
    }
}

impl<'a> Datum<'a> {
    /// Whether this is the null value.
    pub fn is_null(&self) -> (null: bool)
        ensures
            null == (self@ is Null),
    {
        matches!(self, Datum::Null)
    }

    /// The string held.
    pub fn as_str(&self) -> (s: &'a str)
        requires
            self@ is String,
        ensures
            self@ == Value::String(s@),
    {
        match self {
            Datum::String(s) => s,
            _ => "",
        }
    }

    /// The kind of this value.
    pub fn kind(&self) -> (k: ValueKind)
        ensures
            k == self@.kind(),
    {
        match self {
            Datum::Null => ValueKind::Null,
            Datum::Bool(_) => ValueKind::Bool,
            Datum::Int16(_) => ValueKind::Int16,
            Datum::Int32(_) => ValueKind::Int32,
            Datum::Int64(_) => ValueKind::Int64,
            Datum::Float64(_) => ValueKind::Float64,
            Datum::String(_) => ValueKind::String,
            Datum::Blob(_) => ValueKind::Blob,
            Datum::Decimal(_) => ValueKind::Decimal,
            Datum::Date(_) => ValueKind::Date,
            Datum::Timestamp(_) => ValueKind::Timestamp,
            Datum::TimestampTz(_) => ValueKind::TimestampTz,
        }
    }

    /// The position of this value's variant in the union.
    pub fn rank(&self) -> (r: u8)
        ensures
            r == self@.rank(),
    {
        match self {
            Datum::Null => 0,
            Datum::Bool(_) => 1,
            Datum::Int16(_) => 2,
            Datum::Int32(_) => 3,
            Datum::Int64(_) => 4,
            Datum::Float64(_) => 5,
            Datum::String(_) => 6,
            Datum::Blob(_) => 7,
            Datum::Decimal(_) => 8,
            Datum::Date(_) => 9,
            Datum::Timestamp(_) => 10,
            Datum::TimestampTz(_) => 11,
        }
    }

    /// The sign of the comparison of this value with `other`: `-1` if this one
    /// is smaller, `0` if they are equal, `1` if it is greater.
    pub fn compare_sign(&self, other: &Datum<'_>) -> (s: i8)
        ensures
            s == self@.order(other@),
    {
        let r1 = self.rank();
        let r2 = other.rank();
        if r1 < r2 {
            return -1;
        }
        if r1 > r2 {
            return 1;
        }
        match (self, other) {
            (Datum::Bool(a), Datum::Bool(b)) => sign_of_i64(
                if *a {
                    1
                } else {
                    0
                },
                if *b {
                    1
                } else {
                    0
                },
            ),
            (Datum::Int16(a), Datum::Int16(b)) => sign_of_i64(*a as i64, *b as i64),
            (Datum::Int32(a), Datum::Int32(b)) => sign_of_i64(*a as i64, *b as i64),
            (Datum::Int64(a), Datum::Int64(b)) => sign_of_i64(*a, *b),
            (Datum::Float64(a), Datum::Float64(b)) => {
                let x = a.sort_key();
                let y = b.sort_key();
                if x < y {
                    -1
                } else if x > y {
                    1
                } else {
                    0
                }
            },
            (Datum::String(a), Datum::String(b)) => compare_bytes(a.as_bytes(), b.as_bytes()),
            (Datum::Blob(a), Datum::Blob(b)) => compare_bytes(a.as_bytes(), b.as_bytes()),
            (Datum::Decimal(a), Datum::Decimal(b)) => a.compare_sign(b),
            (Datum::Date(a), Datum::Date(b)) => sign_of_i64(
                a.get_inner() as i64,
                b.get_inner() as i64,
            ),
            (Datum::Timestamp(a), Datum::Timestamp(b)) => sign_of_i64(
                a.get_inner(),
                b.get_inner(),
            ),
            (Datum::TimestampTz(a), Datum::TimestampTz(b)) => sign_of_i64(
                a.get_inner(),
                b.get_inner(),
            ),
            _ => 0,
        }
    }

    /// Compares this value with `other` in the total order of values.
    pub fn compare(&self, other: &Datum<'_>) -> (o: Ordering)
        ensures
            o == ordering_of(self@.order(other@)),
    {
        sign_to_ordering(self.compare_sign(other))
    }
}

/// The sign of `a - b`.
fn sign_of_i64(a: i64, b: i64) -> (s: i8)
    ensures
        s == int_order(a as int, b as int),
{
    if a < b {
        -1
    } else if a > b {
        1
    } else {
        0
    }
}

impl<'a> PartialEq for Datum<'a> {
    fn eq(&self, other: &Self) -> (r: bool) {
        self.compare_sign(other) == 0
    }
}

impl<'a> vstd::std_specs::cmp::PartialEqSpecImpl for Datum<'a> {
    open spec fn obeys_eq_spec() -> bool {
        true
    }

    open spec fn eq_spec(&self, other: &Self) -> bool {
        self@.order(other@) == 0
    }
}

impl<'a> PartialOrd for Datum<'a> {
    fn partial_cmp(&self, other: &Self) -> (r: Option<Ordering>) {
        Some(self.compare(other))
    }
}

impl<'a> vstd::std_specs::cmp::PartialOrdSpecImpl for Datum<'a> {
    open spec fn obeys_partial_cmp_spec() -> bool {
        true
    }

    open spec fn partial_cmp_spec(&self, other: &Self) -> Option<Ordering> {
        Some(ordering_of(self@.order(other@)))
    }
}

impl Value {
    /// Whether this value comes before `other`.
    pub open spec fn less(self, other: Value) -> bool {
        self.order(other) < 0
    }

    /// Whether this value and `other` are equal in the order: neither comes
    /// before the other.
    pub open spec fn same(self, other: Value) -> bool {
        self.order(other) == 0
    }
}

/// The order of two values is a sign, and comparing them the other way round
/// gives the opposite sign.
pub proof fn lemma_order_antisymmetric(a: Value, b: Value)
    ensures
        -1 <= a.order(b) <= 1,
        a.order(b) == -b.order(a),
{
    match (a, b) {
        (Value::String(x), Value::String(y)) => {
            lemma_bytes_order_from_antisymmetric(encode_utf8(x), encode_utf8(y), 0);
        },
        (Value::Blob(x), Value::Blob(y)) => {
            lemma_bytes_order_from_antisymmetric(x, y, 0);
        },
        _ => {},
    }
}

/// Every value is equal to itself in the order.
pub proof fn lemma_order_reflexive(a: Value)
    ensures
        a.same(a),
{
    match a {
        Value::String(x) => {
            lemma_bytes_order_from_reflexive(encode_utf8(x), 0);
        },
        Value::Blob(x) => {
            lemma_bytes_order_from_reflexive(x, 0);
        },
        _ => {},
    }
}

/// If `a` is at most `b` and `b` at most `c`, then `a` is at most `c`; and if
/// one of the two steps is strict, `a` comes before `c`.
pub proof fn lemma_order_transitive(a: Value, b: Value, c: Value)
    requires
        a.order(b) <= 0,
        b.order(c) <= 0,
    ensures
        a.order(c) <= 0,
        a.less(b) || b.less(c) ==> a.less(c),
{
    if a.rank() == b.rank() && b.rank() == c.rank() {
        match (a, b, c) {
            (Value::String(x), Value::String(y), Value::String(z)) => {
                lemma_bytes_order_from_transitive(
                    encode_utf8(x),
                    encode_utf8(y),
                    encode_utf8(z),
                    0,
                );
            },
            (Value::Blob(x), Value::Blob(y), Value::Blob(z)) => {
                lemma_bytes_order_from_transitive(x, y, z, 0);
            },
            (Value::Decimal(x), Value::Decimal(y), Value::Decimal(z)) => {
                lemma_decimal_order_transitive(x@.0, x@.1, y@.0, y@.1, z@.0, z@.1);
            },
            _ => {},
        }
    }
}

/// The order on values is a strict total order: no value comes before itself;
/// of two values exactly one of "the first comes before the second", "they are
/// equal in the order" and "the second comes before the first" holds; "comes
/// before" is transitive; and values equal in the order stand in the same
/// relations to every third value.
pub proof fn lemma_order_strict_total(a: Value, b: Value, c: Value)
    ensures
        !a.less(a),
        a.less(b) || a.same(b) || b.less(a),
        !(a.less(b) && a.same(b)),
        !(a.less(b) && b.less(a)),
        !(a.same(b) && b.less(a)),
        a.same(b) <==> b.same(a),
        a.less(b) && b.less(c) ==> a.less(c),
        a.same(b) && b.same(c) ==> a.same(c),
        a.same(b) ==> (a.less(c) <==> b.less(c)) && (c.less(a) <==> c.less(b)),
        a.rank() < b.rank() ==> a.less(b),
{
    lemma_order_reflexive(a);
    lemma_order_antisymmetric(a, b);
    lemma_order_antisymmetric(b, a);
    lemma_order_antisymmetric(a, c);
    lemma_order_antisymmetric(b, c);
    if a.order(b) <= 0 && b.order(c) <= 0 {
        lemma_order_transitive(a, b, c);
    }
    if a.same(b) {
        if b.order(a) <= 0 && a.order(c) <= 0 {
            lemma_order_transitive(b, a, c);
        }
        if c.order(a) <= 0 && a.order(b) <= 0 {
            lemma_order_transitive(c, a, b);
        }
        if c.order(b) <= 0 && b.order(a) <= 0 {
            lemma_order_transitive(c, b, a);
        }
    }
}

/// Two values that are equal in the order are of the same variant. Unless
/// they are floating-point values or decimals, they are the same value;
/// floating-point values have the same key, and decimals the same numeric
/// value.
pub proof fn lemma_order_same(a: Value, b: Value)
    requires
        a.same(b),
    ensures
        a.kind() == b.kind(),
        !(a is Float64) && !(a is Decimal) ==> a == b,
        a matches Value::Float64(x) ==> b matches Value::Float64(y) && x.key() == y.key(),
        a matches Value::Decimal(x) ==> b matches Value::Decimal(y) && x.order(y) == 0,
{
    match (a, b) {
        (Value::String(x), Value::String(y)) => {
            lemma_bytes_order_from_equal(encode_utf8(x), encode_utf8(y), 0);
            encode_utf8_decode_utf8(x);
            encode_utf8_decode_utf8(y);
        },
        (Value::Blob(x), Value::Blob(y)) => {
            lemma_bytes_order_from_equal(x, y, 0);
        },
        _ => {},
    }
}

impl<'a> From<i32> for Datum<'a> {
    fn from(i: i32) -> (d: Datum<'a>) {
        Datum::Int32(i)
    }
}

impl<'a> vstd::std_specs::convert::FromSpecImpl<i32> for Datum<'a> {
    open spec fn obeys_from_spec() -> bool {
        true
    }

    open spec fn from_spec(i: i32) -> Self {
        Datum::Int32(i)
    }
}

impl<'a> From<&'a str> for Datum<'a> {
    fn from(s: &'a str) -> (d: Datum<'a>) {
        Datum::String(s)
    }
}

impl<'a> vstd::std_specs::convert::FromSpecImpl<&'a str> for Datum<'a> {
    open spec fn obeys_from_spec() -> bool {
        true
    }

    open spec fn from_spec(s: &'a str) -> Self {
        Datum::String(s)
    }
}

impl<'a> From<Option<&()>> for Datum<'a> {
    fn from(none: Option<&()>) -> (d: Datum<'a>) {
        Datum::Null
    }
}

impl<'a> vstd::std_specs::convert::FromSpecImpl<Option<&()>> for Datum<'a> {
    open spec fn obeys_from_spec() -> bool {
        true
    }

    open spec fn from_spec(none: Option<&()>) -> Self {
        Datum::Null
    }
}

impl TryFrom<&Datum<'_>> for i32 {
    type Error = ();

    fn try_from(from: &Datum<'_>) -> (r: Result<Self, Self::Error>) {
        match from {
            Datum::Int32(i) => Ok(*i),
            _ => Err(()),
        }
    }
}

impl vstd::std_specs::convert::TryFromSpecImpl<&Datum<'_>> for i32 {
    open spec fn obeys_try_from_spec() -> bool {
        true
    }

    open spec fn try_from_spec(from: &Datum<'_>) -> Result<Self, Self::Error> {
        match from {
            Datum::Int32(i) => Ok(*i),
            _ => Err(()),
        }
    }
}

impl<'a> TryFrom<&Datum<'a>> for &'a str {
    type Error = ();

    fn try_from(from: &Datum<'a>) -> (r: Result<Self, Self::Error>) {
        match from {
            Datum::String(s) => Ok(*s),
            _ => Err(()),
        }
    }
}

impl<'a> vstd::std_specs::convert::TryFromSpecImpl<&Datum<'a>> for &'a str {
    open spec fn obeys_try_from_spec() -> bool {
        true
    }

    open spec fn try_from_spec(from: &Datum<'a>) -> Result<Self, Self::Error> {
        match from {
            Datum::String(s) => Ok(*s),
            _ => Err(()),
        }
    }
}

/// Values that can be appended to a column builder.
pub trait ToArrow {
    /// The cell that this value becomes in a column.
    spec fn cell(&self) -> Cell;

    /// Appends this value to `builder` if that is a builder of the kind that
    /// takes it. If it is of another kind, nothing is appended and the error
    /// names the kind of this value.
    fn append_to(&self, builder: &mut ColumnBuilder) -> (r: Result<(), Error>)
        requires
            old(builder).kind() == self.cell().kind() ==> old(builder).has_room(self.cell()),
        ensures
            old(builder).offered(self.cell(), *final(builder)),
            r == if old(builder).kind() == self.cell().kind() {
                Ok::<(), Error>(())
            } else {
                Err::<(), Error>(Error::RowConvertError { value: self.cell().value_kind() })
            },
    ;
}

impl ToArrow for i8 {
    open spec fn cell(&self) -> Cell {
        Cell::Int8(*self)
    }

    fn append_to(&self, builder: &mut ColumnBuilder) -> (r: Result<(), Error>) {
        if push_i8(builder, *self) {
            Ok(())
        } else {
            Err(Error::RowConvertError { value: ValueKind::Int8 })
        }
    }
}

impl ToArrow for i16 {
    open spec fn cell(&self) -> Cell {
        Cell::Int16(*self)
    }

    fn append_to(&self, builder: &mut ColumnBuilder) -> (r: Result<(), Error>) {
        if push_i16(builder, *self) {
            Ok(())
        } else {
            Err(Error::RowConvertError { value: ValueKind::Int16 })
        }
    }
}

impl ToArrow for i32 {
    open spec fn cell(&self) -> Cell {
        Cell::Int32(*self)
    }

    fn append_to(&self, builder: &mut ColumnBuilder) -> (r: Result<(), Error>) {
        if push_i32(builder, *self) {
            Ok(())
        } else {
            Err(Error::RowConvertError { value: ValueKind::Int32 })
        }
    }
}

impl ToArrow for &str {
    open spec fn cell(&self) -> Cell {
        Cell::Utf8(self@)
    }

    fn append_to(&self, builder: &mut ColumnBuilder) -> (r: Result<(), Error>) {
        if push_str(builder, *self) {
            Ok(())
        } else {
            Err(Error::RowConvertError { value: ValueKind::String })
        }
    }
}

impl ToArrow for bool {
    open spec fn cell(&self) -> Cell {
        Cell::Bool(*self)
    }

    fn append_to(&self, builder: &mut ColumnBuilder) -> (r: Result<(), Error>) {
        if push_bool(builder, *self) {
            Ok(())
        } else {
            Err(Error::RowConvertError { value: ValueKind::Bool })
        }
    }
}

impl ToArrow for i64 {
    open spec fn cell(&self) -> Cell {
        Cell::Int64(*self)
    }

    fn append_to(&self, builder: &mut ColumnBuilder) -> (r: Result<(), Error>) {
        if push_i64(builder, *self) {
            Ok(())
        } else {
            Err(Error::RowConvertError { value: ValueKind::Int64 })
        }
    }
}

impl ToArrow for Blob {
    open spec fn cell(&self) -> Cell {
        Cell::Binary(self@)
    }

    fn append_to(&self, builder: &mut ColumnBuilder) -> (r: Result<(), Error>) {
        if push_bytes(builder, self.as_bytes()) {
            Ok(())
        } else {
            Err(Error::RowConvertError { value: ValueKind::Blob })
        }
    }
}

impl ToArrow for Date {
    open spec fn cell(&self) -> Cell {
        Cell::Date32(self@)
    }

    fn append_to(&self, builder: &mut ColumnBuilder) -> (r: Result<(), Error>) {
        if push_date(builder, self.0) {
            Ok(())
        } else {
            Err(Error::RowConvertError { value: ValueKind::Date })
        }
    }
}

impl ToArrow for Timestamp {
    open spec fn cell(&self) -> Cell {
        Cell::TimestampMicros(self@)
    }

    fn append_to(&self, builder: &mut ColumnBuilder) -> (r: Result<(), Error>) {
        if push_micros(builder, self.0) {
            Ok(())
        } else {
            Err(Error::RowConvertError { value: ValueKind::Timestamp })
        }
    }
}

impl ToArrow for TimestampLtz {
    open spec fn cell(&self) -> Cell {
        Cell::TimestampMillis(self@)
    }

    fn append_to(&self, builder: &mut ColumnBuilder) -> (r: Result<(), Error>) {
        if push_millis(builder, self.0) {
            Ok(())
        } else {
            Err(Error::RowConvertError { value: ValueKind::TimestampTz })
        }
    }
}

impl Value {
    /// The cell that this value becomes in a column, for the kinds of value
    /// that a column takes: all but null, floating-point numbers and
    /// decimals.
    pub open spec fn cell(self) -> Option<Cell> {
        match self {
            Value::Null => None,
            Value::Bool(v) => Some(Cell::Bool(v)),
            Value::Int16(v) => Some(Cell::Int16(v)),
            Value::Int32(v) => Some(Cell::Int32(v)),
            Value::Int64(v) => Some(Cell::Int64(v)),
            Value::Float64(_) => None,
            Value::String(v) => Some(Cell::Utf8(v)),
            Value::Blob(v) => Some(Cell::Binary(v)),
            Value::Decimal(_) => None,
            Value::Date(v) => Some(v.cell()),
            Value::Timestamp(v) => Some(v.cell()),
            Value::TimestampTz(v) => Some(v.cell()),
        }
    }

    /// Whether a column of kind `kind` takes this value.
    pub open spec fn fits(self, kind: ColumnKind) -> bool {
        self.cell() matches Some(c) && c.kind() == kind
    }
}

impl<'a> Datum<'a> {
    /// The kind of column that takes this value, if any does.
    pub fn column_kind(&self) -> (kind: Option<ColumnKind>)
        ensures
            kind == match self@.cell() {
                Some(c) => Some(c.kind()),
                None => None,
            },
    {
        match self {
            Datum::Null => None,
            Datum::Bool(_) => Some(ColumnKind::Bool),
            Datum::Int16(_) => Some(ColumnKind::Int16),
            Datum::Int32(_) => Some(ColumnKind::Int32),
            Datum::Int64(_) => Some(ColumnKind::Int64),
            Datum::Float64(_) => None,
            Datum::String(_) => Some(ColumnKind::Utf8),
            Datum::Blob(_) => Some(ColumnKind::Binary),
            Datum::Decimal(_) => None,
            Datum::Date(_) => Some(ColumnKind::Date32),
            Datum::Timestamp(_) => Some(ColumnKind::TimestampMicros),
            Datum::TimestampTz(_) => Some(ColumnKind::TimestampMillis),
        }
    }

    /// Appends this value to `builder` if that is a builder of the kind that
    /// takes it.
    ///
    /// A boolean goes into a column of booleans, an integer into the column
    /// of integers of its width, a string into one of strings, a blob into one
    /// of byte strings, a date into one of dates, a timestamp into the column
    /// of timestamps of its unit. No column takes null, a floating-point
    /// number or a decimal. For a builder of another kind than the one that
    /// takes this value, nothing is appended and the error names the kind of
    /// this value.
    pub fn append_to(&self, builder: &mut ColumnBuilder) -> (r: Result<(), Error>)
        requires
            self@.fits(old(builder).kind()) ==> old(builder).has_room(self@.cell().unwrap()),
        ensures
            self@.fits(old(builder).kind()) ==> r is Ok && old(builder).extended_by(
                self@.cell().unwrap(),
                *final(builder),
            ),
            !self@.fits(old(builder).kind()) ==> r == Err::<(), Error>(
                Error::RowConvertError { value: self@.kind() },
            ) && old(builder).unchanged(*final(builder)),
    {
        match self {
            Datum::Bool(v) => v.append_to(builder),
            Datum::Int16(v) => v.append_to(builder),
            Datum::Int32(v) => v.append_to(builder),
            Datum::Int64(v) => v.append_to(builder),
            Datum::String(v) => v.append_to(builder),
            Datum::Blob(v) => v.append_to(builder),
            Datum::Date(v) => v.append_to(builder),
            Datum::Timestamp(v) => v.append_to(builder),
            Datum::TimestampTz(v) => v.append_to(builder),
            Datum::Null => Err(Error::RowConvertError { value: ValueKind::Null }),
            Datum::Float64(_) => Err(Error::RowConvertError { value: ValueKind::Float64 }),
            Datum::Decimal(_) => Err(Error::RowConvertError { value: ValueKind::Decimal }),
        }
    }
}

} // verus!
