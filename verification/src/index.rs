//! Ways of naming a parameter or a column of a statement: by position or by name.

use vstd::prelude::*;

use crate::statement::{Statement, StatementView};
use crate::value::Error;

verus! {

/// A type that names a parameter of a statement.
///
/// In case of integer indices, the first parameter has index 1.
pub trait ParameterIndex: Copy {
    /// The index that this names in `statement`, or why it names none.
    spec fn spec_parameter(self, statement: StatementView) -> Result<usize, Error>;

    /// Returns the index of the parameter.
    fn index(self, statement: &Statement) -> (index: Result<usize, Error>)
        ensures
            index == self.spec_parameter(statement@),
    ;
}

/// A type that names a result column of a statement.
///
/// In case of integer indices, the first column has index 0.
pub trait ColumnIndex: Copy {
    /// The position that this names in `statement`, or why it names none.
    spec fn spec_column(self, statement: StatementView) -> Result<usize, Error>;

    /// Returns the position of the column, which is below the column count.
    fn index(self, statement: &Statement) -> (index: Result<usize, Error>)
        ensures
            index == self.spec_column(statement@),
            index matches Ok(position) ==> position < statement@.column_names.len(),
    ;
}

impl ParameterIndex for usize {
    /// An integer is taken as the index itself; whether it is in range is for binding to say.
    open spec fn spec_parameter(self, statement: StatementView) -> Result<usize, Error> {
        Ok(self)
    }

    fn index(self, statement: &Statement) -> (index: Result<usize, Error>) {
        Ok(self)
    }
}

impl<'a> ParameterIndex for &'a str {
    /// A name is taken as the first parameter with that name.
    open spec fn spec_parameter(self, statement: StatementView) -> Result<usize, Error> {
        match statement.parameter_position(self@) {
            Some(index) => Ok(index),
            None => Err(Error::UnknownParameter),
        }
    }

    fn index(self, statement: &Statement) -> (index: Result<usize, Error>) {
        match statement.parameter_index(self) {
            Some(index) => Ok(index),
            None => Err(Error::UnknownParameter),
        }
    }
}

impl ColumnIndex for usize {
    /// An integer is taken as the position itself, which must be below the column count.
    open spec fn spec_column(self, statement: StatementView) -> Result<usize, Error> {
        if self < statement.column_names.len() {
            Ok(self)
        } else {
            Err(Error::ColumnOutOfRange)
        }
    }

    fn index(self, statement: &Statement) -> (index: Result<usize, Error>) {
        if self >= statement.column_count() {
            return Err(Error::ColumnOutOfRange);
        }
        Ok(self)
    }
}

impl<'a> ColumnIndex for &'a str {
    /// A name is taken as the first column with that name.
    open spec fn spec_column(self, statement: StatementView) -> Result<usize, Error> {
        match statement.column_position(self@) {
            Some(position) => Ok(position),
            None => Err(Error::ColumnOutOfRange),
        }
    }

    fn index(self, statement: &Statement) -> (index: Result<usize, Error>) {
        proof {
            statement@.column_names.index_of_first_ensures(self@);
        }
        match statement.column_position(self) {
            Some(position) => Ok(position),
            None => Err(Error::ColumnOutOfRange),
        }
    }
}

} // verus!
