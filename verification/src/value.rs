//! Values that travel between Rust and a prepared statement.

use vstd::prelude::*;

verus! {

/// The storage class of a value.
#[derive(Clone, Copy, Debug, PartialEq, Eq, Structural)]
pub enum Type {
    /// A blob.
    Binary,
    /// A double-precision floating-point number.
    Float,
    /// A signed 64-bit integer.
    Integer,
    /// A text string.
    String,
    /// The null value.
    Null,
}

/// A double-precision floating-point number, held as its IEEE 754 bit pattern.
///
/// `Double(x.to_bits())` stands for the `f64` value `x`. SQLite keeps the pattern as it is,
/// except that it stores a NaN as the null value.
#[derive(Clone, Copy, Debug, PartialEq, Eq, Structural)]
pub struct Double(pub u64);

/// Whether an IEEE 754 bit pattern is a NaN: all exponent bits set and a non-zero mantissa.
pub open spec fn is_nan_bits(bits: u64) -> bool {
    (bits & 0x7ff0_0000_0000_0000u64) == 0x7ff0_0000_0000_0000u64 && (bits & 0x000f_ffff_ffff_ffffu64) != 0
}

impl Double {
    /// Returns whether the number is a NaN.
    pub fn is_nan(&self) -> (nan: bool)
        ensures
            nan == is_nan_bits(self.0),
    {
        (self.0 & 0x7ff0_0000_0000_0000u64) == 0x7ff0_0000_0000_0000u64 && (self.0 & 0x000f_ffff_ffff_ffffu64) != 0
    }
}

/// A value of any storage class.
#[derive(Clone, Debug, PartialEq)]
pub enum Value {
    /// A blob.
    Binary(Vec<u8>),
    /// A floating-point number, by its IEEE 754 bit pattern.
    Float(u64),
    /// An integer.
    Integer(i64),
    /// A string.
    String(String),
    /// The null value.
    Null,
}

/// The mathematical content of a [`Value`].
pub enum ValueView {
    Binary(Seq<u8>),
    Float(u64),
    Integer(i64),
    String(Seq<char>),
    Null,
}

impl View for Value {
    type V = ValueView;

    open spec fn view(&self) -> ValueView {
        match self {
            Value::Binary(bytes) => ValueView::Binary(bytes@),
            Value::Float(bits) => ValueView::Float(*bits),
            Value::Integer(number) => ValueView::Integer(*number),
            Value::String(text) => ValueView::String(text@),
            Value::Null => ValueView::Null,
        }
    }
}

impl ValueView {
    /// The storage class of the value.
    pub open spec fn kind(self) -> Type {
        match self {
            ValueView::Binary(_) => Type::Binary,
            ValueView::Float(_) => Type::Float,
            ValueView::Integer(_) => Type::Integer,
            ValueView::String(_) => Type::String,
            ValueView::Null => Type::Null,
        }
    }

    /// The value that SQLite stores when this one is bound: a NaN becomes null.
    pub open spec fn stored(self) -> ValueView {
        match self {
            ValueView::Float(bits) => if is_nan_bits(bits) {
                ValueView::Null
            } else {
                self
            },
            _ => self,
        }
    }

    /// The number of bytes that SQLite measures against its length limit: those of a blob and
    /// the UTF-8 encoding of a string; none for other values.
    pub open spec fn byte_length(self) -> nat {
        match self {
            ValueView::Binary(bytes) => bytes.len(),
            ValueView::String(text) => vstd::utf8::encode_utf8(text).len(),
            _ => 0,
        }
    }
}

impl Value {
    /// Returns the storage class of the value.
    pub fn kind(&self) -> (kind: Type)
        ensures
            kind == self@.kind(),
    {
        match self {
            Value::Binary(_) => Type::Binary,
            Value::Float(_) => Type::Float,
            Value::Integer(_) => Type::Integer,
            Value::String(_) => Type::String,
            Value::Null => Type::Null,
        }
    }
}

/// What SQLite reports for one column of the current row: the storage class of the value and
/// the result of each typed accessor on it.
///
/// `text` and `blob` are `None` where the accessor hands back a null pointer, as it does for a
/// null value.
#[derive(Clone, Debug, PartialEq)]
pub struct Column {
    pub kind: Type,
    pub integer: i64,
    pub float: u64,
    pub text: Option<String>,
    pub blob: Option<Vec<u8>>,
}

/// The mathematical content of a [`Column`].
pub struct ColumnView {
    pub kind: Type,
    pub integer: i64,
    pub float: u64,
    pub text: Option<Seq<char>>,
    pub blob: Option<Seq<u8>>,
}

impl View for Column {
    type V = ColumnView;

    open spec fn view(&self) -> ColumnView {
        ColumnView {
            kind: self.kind,
            integer: self.integer,
            float: self.float,
            text: match self.text {
                Some(text) => Some(text@),
                None => None,
            },
            blob: match self.blob {
                Some(bytes) => Some(bytes@),
                None => None,
            },
        }
    }
}

impl ColumnView {
    /// What SQLite reports for a null value: zero from the numeric accessors and null pointers
    /// from the others.
    pub open spec fn null_reads_as_null(self) -> bool {
        self.kind == Type::Null ==> (self.integer == 0 && self.float == 0 && self.text is None
            && self.blob is None)
    }
}

impl Column {
    /// The column that SQLite reports where there is no current row: a null value, whose
    /// accessors give zero and null pointers.
    pub open spec fn spec_null() -> ColumnView {
        ColumnView { kind: Type::Null, integer: 0, float: 0, text: None, blob: None }
    }

    /// Returns the column of a null value.
    pub fn null() -> (column: Column)
        ensures
            column@ == Column::spec_null(),
    {
        Column { kind: Type::Null, integer: 0, float: 0, text: None, blob: None }
    }
}

/// An error of a statement.
#[derive(Clone, Copy, Debug, PartialEq, Eq, Structural)]
pub enum Error {
    /// A parameter was bound while the statement was running (`SQLITE_MISUSE`).
    Misuse,
    /// A parameter index is out of range (`SQLITE_RANGE`).
    Range,
    /// A blob or a string is longer than the length limit (`SQLITE_TOOBIG`).
    TooBig,
    /// No parameter has the given name.
    UnknownParameter,
    /// A column index is out of range, or no column has the given name.
    ColumnOutOfRange,
    /// A text column could not be read: SQLite handed back a null pointer.
    NotText,
}

impl Error {
    /// The SQLite result code of the error, where it has one.
    pub open spec fn spec_code(self) -> Option<i64> {
        match self {
            Error::Misuse => Some(21),
            Error::Range => Some(25),
            Error::TooBig => Some(18),
            _ => None,
        }
    }

    /// Returns the SQLite result code of the error, where it has one.
    pub fn code(&self) -> (code: Option<i64>)
        ensures
            code == self.spec_code(),
    {
        match self {
            Error::Misuse => Some(21),
            Error::Range => Some(25),
            Error::TooBig => Some(18),
            _ => None,
        }
    }
}

} // verus!
