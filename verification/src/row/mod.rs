//! Rows: the scalar values they hold and the columns they are written into.

pub mod column;
pub mod datum;
pub mod decimal;
pub mod float;
pub mod order;

use crate::error::Error;
use crate::row::datum::{Datum, Value, ValueKind, F32, F64};
use vstd::prelude::*;
use vstd::std_specs::convert::IntoSpec;
use vstd::string::*;

verus! {

/// What a getter returns for a field that is not of the kind asked for.
pub open spec fn mismatch(pos: usize, expected: ValueKind, found: Value) -> Error {
    Error::TypeMismatch { pos, expected, found: found.kind() }
}

/// A record whose fields are read by position.
///
/// A position is valid below the number of fields. Each getter returns the
/// field at that position if it is of the kind the getter is for, and
/// otherwise the error that names the position, the kind asked for and the
/// kind found.
pub trait InternalRow {
    /// The values of this row, by position.
    spec fn fields(&self) -> Seq<Value>;

    /// Returns the number of fields in this row.
    fn get_field_count(&self) -> (n: usize)
        ensures
            n == self.fields().len(),
    ;

    /// Returns true if the element is null at the given position.
    fn is_null_at(&self, pos: usize) -> (null: bool)
        requires
            pos < self.fields().len(),
        ensures
            null == (self.fields()[pos as int] is Null),
    ;

    /// Returns the boolean value at the given position.
    fn get_boolean(&self, pos: usize) -> (r: Result<bool, Error>)
        requires
            pos < self.fields().len(),
        ensures
            r == match self.fields()[pos as int] {
                Value::Bool(v) => Ok::<bool, Error>(v),
                other => Err::<bool, Error>(mismatch(pos, ValueKind::Bool, other)),
            },
    ;

    /// Returns the byte value at the given position. No value is of that
    /// kind, so this is always the error.
    fn get_byte(&self, pos: usize) -> (r: Result<i8, Error>)
        requires
            pos < self.fields().len(),
        ensures
            r == Err::<i8, Error>(mismatch(pos, ValueKind::Int8, self.fields()[pos as int])),
    ;

    /// Returns the short value at the given position.
    fn get_short(&self, pos: usize) -> (r: Result<i16, Error>)
        requires
            pos < self.fields().len(),
        ensures
            r == match self.fields()[pos as int] {
                Value::Int16(v) => Ok::<i16, Error>(v),
                other => Err::<i16, Error>(mismatch(pos, ValueKind::Int16, other)),
            },
    ;

    /// Returns the integer value at the given position.
    fn get_int(&self, pos: usize) -> (r: Result<i32, Error>)
        requires
            pos < self.fields().len(),
        ensures
            r == match self.fields()[pos as int] {
                Value::Int32(v) => Ok::<i32, Error>(v),
                other => Err::<i32, Error>(mismatch(pos, ValueKind::Int32, other)),
            },
    ;

    /// Returns the long value at the given position.
    fn get_long(&self, pos: usize) -> (r: Result<i64, Error>)
        requires
            pos < self.fields().len(),
        ensures
            r == match self.fields()[pos as int] {
                Value::Int64(v) => Ok::<i64, Error>(v),
                other => Err::<i64, Error>(mismatch(pos, ValueKind::Int64, other)),
            },
    ;

    /// Returns the float value at the given position. No value is of that
    /// kind, so this is always the error.
    fn get_float(&self, pos: usize) -> (r: Result<F32, Error>)
        requires
            pos < self.fields().len(),
        ensures
            r == Err::<F32, Error>(mismatch(pos, ValueKind::Float32, self.fields()[pos as int])),
    ;

    /// Returns the double value at the given position.
    fn get_double(&self, pos: usize) -> (r: Result<F64, Error>)
        requires
            pos < self.fields().len(),
        ensures
            r == match self.fields()[pos as int] {
                Value::Float64(v) => Ok::<F64, Error>(v),
                other => Err::<F64, Error>(mismatch(pos, ValueKind::Float64, other)),
            },
    ;

    /// Returns the string value at the given position of a column of strings
    /// of the fixed length `length`. The string is returned as it is stored.
    fn get_char(&self, pos: usize, length: usize) -> (r: Result<String, Error>)
        requires
            pos < self.fields().len(),
        ensures
            match self.fields()[pos as int] {
                Value::String(v) => r matches Ok(s) && s@ == v,
                other => r == Err::<String, Error>(mismatch(pos, ValueKind::String, other)),
            },
    ;

    /// Returns the string value at the given position.
    fn get_string(&self, pos: usize) -> (r: Result<&str, Error>)
        requires
            pos < self.fields().len(),
        ensures
            match self.fields()[pos as int] {
                Value::String(v) => r matches Ok(s) && s@ == v,
                other => r == Err::<&str, Error>(mismatch(pos, ValueKind::String, other)),
            },
    ;

    /// Returns the binary value at the given position of a column of binary
    /// values of the fixed length `length`. The bytes are returned as they are
    /// stored.
    fn get_binary(&self, pos: usize, length: usize) -> (r: Result<Vec<u8>, Error>)
        requires
            pos < self.fields().len(),
        ensures
            match self.fields()[pos as int] {
                Value::Blob(v) => r matches Ok(b) && b@ == v,
                other => r == Err::<Vec<u8>, Error>(mismatch(pos, ValueKind::Blob, other)),
            },
    ;

    /// Returns the binary value at the given position.
    fn get_bytes(&self, pos: usize) -> (r: Result<Vec<u8>, Error>)
        requires
            pos < self.fields().len(),
        ensures
            match self.fields()[pos as int] {
                Value::Blob(v) => r matches Ok(b) && b@ == v,
                other => r == Err::<Vec<u8>, Error>(mismatch(pos, ValueKind::Blob, other)),
            },
    ;
}

/// A row that holds its values in a vector, one per field.
pub struct GenericRow<'a> {
    pub values: Vec<Datum<'a>>,
}

impl<'a> View for GenericRow<'a> {
    type V = Seq<Value>;

    open spec fn view(&self) -> Seq<Value> {
        Seq::new(self.values@.len(), |i: int| self.values@[i]@)
    }
}

impl<'a> InternalRow for GenericRow<'a> {
    open spec fn fields(&self) -> Seq<Value> {
        self@
    }

    fn get_field_count(&self) -> (n: usize) {
        self.values.len()
    }

    fn is_null_at(&self, pos: usize) -> (null: bool) {
        self.values[pos].is_null()
    }

    fn get_boolean(&self, pos: usize) -> (r: Result<bool, Error>) {
        match &self.values[pos] {
            Datum::Bool(v) => Ok(*v),
            other => Err(Error::TypeMismatch { pos, expected: ValueKind::Bool, found: other.kind() }),
        }
    }

    fn get_byte(&self, pos: usize) -> (r: Result<i8, Error>) {
        Err(
            Error::TypeMismatch {
                pos,
                expected: ValueKind::Int8,
                found: self.values[pos].kind(),
            },
        )
    }

    fn get_short(&self, pos: usize) -> (r: Result<i16, Error>) {
        match &self.values[pos] {
            Datum::Int16(v) => Ok(*v),
            other => Err(
                Error::TypeMismatch { pos, expected: ValueKind::Int16, found: other.kind() },
            ),
        }
    }

    fn get_int(&self, pos: usize) -> (r: Result<i32, Error>) {
        match &self.values[pos] {
            Datum::Int32(v) => Ok(*v),
            other => Err(
                Error::TypeMismatch { pos, expected: ValueKind::Int32, found: other.kind() },
            ),
        }
    }

    fn get_long(&self, pos: usize) -> (r: Result<i64, Error>) {
        match &self.values[pos] {
            Datum::Int64(v) => Ok(*v),
            other => Err(
                Error::TypeMismatch { pos, expected: ValueKind::Int64, found: other.kind() },
            ),
        }
    }

    fn get_float(&self, pos: usize) -> (r: Result<F32, Error>) {
        Err(
            Error::TypeMismatch {
                pos,
                expected: ValueKind::Float32,
                found: self.values[pos].kind(),
            },
        )
    }

    fn get_double(&self, pos: usize) -> (r: Result<F64, Error>) {
        match &self.values[pos] {
            Datum::Float64(v) => Ok(*v),
            other => Err(
                Error::TypeMismatch { pos, expected: ValueKind::Float64, found: other.kind() },
            ),
        }
    }

    fn get_char(&self, pos: usize, length: usize) -> (r: Result<String, Error>) {
        match &self.values[pos] {
            Datum::String(v) => Ok((*v).to_owned()),
            other => Err(
                Error::TypeMismatch { pos, expected: ValueKind::String, found: other.kind() },
            ),
        }
    }

    fn get_string(&self, pos: usize) -> (r: Result<&str, Error>) {
        match &self.values[pos] {
            Datum::String(v) => Ok(*v),
            other => Err(
                Error::TypeMismatch { pos, expected: ValueKind::String, found: other.kind() },
            ),
        }
    }

    fn get_binary(&self, pos: usize, length: usize) -> (r: Result<Vec<u8>, Error>) {
        match &self.values[pos] {
            Datum::Blob(v) => Ok(v.to_vec()),
            other => Err(
                Error::TypeMismatch { pos, expected: ValueKind::Blob, found: other.kind() },
            ),
        }
    }

    fn get_bytes(&self, pos: usize) -> (r: Result<Vec<u8>, Error>) {
        match &self.values[pos] {
            Datum::Blob(v) => Ok(v.to_vec()),
            other => Err(
                Error::TypeMismatch { pos, expected: ValueKind::Blob, found: other.kind() },
            ),
        }
    }
}

impl<'a> Default for GenericRow<'a> {
    fn default() -> (row: Self)
        ensures
            row@ == Seq::<Value>::empty(),
    {
        Self::new()
    }
}

impl<'a> GenericRow<'a> {
    /// A row without fields.
    pub fn new() -> (row: GenericRow<'a>)
        ensures
            row@ == Seq::<Value>::empty(),
    {
        GenericRow { values: Vec::new() }
    }

    /// Sets the field at position `pos` to `value`: replaces the field that
    /// is there, or adds one if `pos` is the number of fields. No other field
    /// moves.
    pub fn set_field<V: Into<Datum<'a>>>(&mut self, pos: usize, value: V)
        requires
            pos <= old(self)@.len(),
            <V as vstd::std_specs::convert::IntoSpec<Datum<'a>>>::obeys_into_spec(),
        ensures
            final(self)@ == if pos < old(self)@.len() {
                old(self)@.update(pos as int, value.into_spec()@)
            } else {
                old(self)@.push(value.into_spec()@)
            },
    {
        let datum: Datum<'a> = value.into();
        if pos < self.values.len() {
            self.values[pos] = datum;
        } else {
            self.values.push(datum);
        }
    }
}

} // verus!
