//! A prepared statement: its parameters with the values bound to them, and its result columns
//! with the current row.
//!
//! The statement holds, as plain values, what SQLite keeps for a prepared statement and what
//! binding and reading consult. The executor that runs the statement hands each step's row in
//! with [`Statement::advance`].

use vstd::prelude::*;

use crate::columns::{Bindable, ReadableWithIndex};
use crate::index::ColumnIndex;
use crate::value::{Column, ColumnView, Double, Error, Type, Value, ValueView};

verus! {

/// The outcome of a step of a statement.
#[derive(Clone, Copy, Debug, PartialEq, Eq, Structural)]
pub enum State {
    /// There is another row available.
    Row,
    /// There are no more rows.
    Done,
}

/// A prepared statement.
pub struct Statement {
    parameter_names: Vec<Option<String>>,
    parameters: Vec<Value>,
    column_names: Vec<String>,
    row: Option<Vec<Column>>,
    stepped: bool,
    length_limit: usize,
}

/// The mathematical content of a [`Statement`].
pub struct StatementView {
    /// The name of each parameter (with its prefix, such as `:`), `None` for a nameless one;
    /// the parameter at position `k` has index `k + 1`.
    pub parameter_names: Seq<Option<Seq<char>>>,
    /// The value that SQLite holds for each parameter: what was last bound to it as SQLite
    /// stores it (a NaN as null); null for an unbound parameter or after a failed bind that
    /// got past the index checks.
    pub parameters: Seq<ValueView>,
    /// The name of each result column.
    pub column_names: Seq<Seq<char>>,
    /// The current row, if the last step produced one.
    pub row: Option<Seq<ColumnView>>,
    /// Whether the statement has been stepped since it was prepared or last reset.
    pub stepped: bool,
    /// The most bytes that a blob or a string bound to a parameter may have.
    pub length_limit: usize,
}

impl StatementView {
    /// The shape that every statement has.
    pub open spec fn wf(self) -> bool {
        &&& self.parameters.len() == self.parameter_names.len()
        &&& self.parameters.len() <= i32::MAX
        &&& self.column_names.len() <= i32::MAX
        &&& self.length_limit <= i32::MAX
        &&& self.row matches Some(row) ==> {
            &&& row.len() == self.column_names.len()
            &&& forall|k: int| 0 <= k < row.len() ==> (#[trigger] row[k]).null_reads_as_null()
        }
    }

    /// The index of the first parameter with the given name, if there is one.
    pub open spec fn parameter_position(self, name: Seq<char>) -> Option<usize> {
        match self.parameter_names.index_of_first(Some(name)) {
            Some(k) => Some((k + 1) as usize),
            None => None,
        }
    }

    /// The position of the first column with the given name, if there is one.
    pub open spec fn column_position(self, name: Seq<char>) -> Option<usize> {
        match self.column_names.index_of_first(name) {
            Some(k) => Some(k as usize),
            None => None,
        }
    }

    /// What SQLite reports for the column at `position`: the column of the current row, or a
    /// null value where there is no current row or no such column.
    pub open spec fn column(self, position: int) -> ColumnView {
        match self.row {
            Some(row) => if 0 <= position < row.len() {
                row[position]
            } else {
                Column::spec_null()
            },
            None => Column::spec_null(),
        }
    }

    /// Binding `value` to the parameter with index `index`: the statement afterwards and the
    /// outcome. A running statement refuses, and an index outside `1..=count` is out of range;
    /// neither changes anything. Otherwise the parameter is cleared first: a blob or a string
    /// longer than the length limit leaves it null and fails; any other value is stored as
    /// SQLite stores it (a NaN as null).
    pub open spec fn bind(self, index: i32, value: ValueView) -> (StatementView, Result<(), Error>) {
        if self.stepped {
            (self, Err(Error::Misuse))
        } else if !(1 <= index <= self.parameters.len()) {
            (self, Err(Error::Range))
        } else if value.byte_length() > self.length_limit {
            (
                StatementView { parameters: self.parameters.update(index - 1, ValueView::Null), ..self },
                Err(Error::TooBig),
            )
        } else {
            (StatementView { parameters: self.parameters.update(index - 1, value.stored()), ..self }, Ok(()))
        }
    }

    /// The statement after a step that produced `row` (`None` when there are no more rows).
    pub open spec fn advance(self, row: Option<Seq<ColumnView>>) -> StatementView {
        StatementView { row: row, stepped: true, ..self }
    }

    /// The statement after a reset: ready to run again, bindings kept.
    pub open spec fn reset(self) -> StatementView {
        StatementView { row: None, stepped: false, ..self }
    }
}

/// The view of a list of names that may be absent.
pub open spec fn optional_names_view(names: Seq<Option<String>>) -> Seq<Option<Seq<char>>> {
    names.map_values(|name: Option<String>| match name {
        Some(name) => Some(name@),
        None => None,
    })
}

/// The view of a list of names.
pub open spec fn names_view(names: Seq<String>) -> Seq<Seq<char>> {
    names.map_values(|name: String| name@)
}

/// The view of a list of values.
pub open spec fn values_view(values: Seq<Value>) -> Seq<ValueView> {
    values.map_values(|value: Value| value@)
}

/// The view of a row.
pub open spec fn row_view(row: Option<Vec<Column>>) -> Option<Seq<ColumnView>> {
    match row {
        Some(row) => Some(row@.map_values(|column: Column| column@)),
        None => None,
    }
}

impl View for Statement {
    type V = StatementView;

    closed spec fn view(&self) -> StatementView {
        StatementView {
            parameter_names: optional_names_view(self.parameter_names@),
            parameters: values_view(self.parameters@),
            column_names: names_view(self.column_names@),
            row: row_view(self.row),
            stepped: self.stepped,
            length_limit: self.length_limit,
        }
    }
}

impl Statement {
    #[verifier::type_invariant]
    spec fn well_formed(&self) -> bool {
        self@.wf()
    }

    /// Creates a statement with the given parameter names, result column names and length
    /// limit for bound blobs and strings, all parameters null and no row.
    pub fn new(parameter_names: Vec<Option<String>>, column_names: Vec<String>, length_limit: usize) -> (statement:
        Statement)
        requires
            parameter_names.len() <= i32::MAX,
            column_names.len() <= i32::MAX,
            length_limit <= i32::MAX,
        ensures
            statement@ == (StatementView {
                parameter_names: optional_names_view(parameter_names@),
                parameters: Seq::new(parameter_names@.len(), |k: int| ValueView::Null),
                column_names: names_view(column_names@),
                row: None,
                stepped: false,
                length_limit: length_limit,
            }),
    {
        let count: usize = parameter_names.len();
        let mut parameters: Vec<Value> = Vec::new();
        let mut k: usize = 0;
        while k < count
            invariant
                k <= count,
                parameters@.len() == k,
                forall|j: int| 0 <= j < k ==> parameters@[j] == Value::Null,
            decreases count - k,
        {
            parameters.push(Value::Null);
            k = k + 1;
        }
        let statement = Statement {
            parameter_names,
            parameters,
            column_names,
            row: None,
            stepped: false,
            length_limit,
        };
        assert(values_view(statement.parameters@) =~= Seq::new(count as nat, |k: int| ValueView::Null));
        statement
    }

    /// Returns the number of parameters.
    pub fn parameter_count(&self) -> (count: usize)
        ensures
            count == self@.parameters.len(),
    {
        self.parameters.len()
    }

    /// Returns the value bound to the parameter with index `index` (the first parameter has
    /// index 1), if there is such a parameter.
    pub fn parameter(&self, index: usize) -> (value: Option<&Value>)
        ensures
            match value {
                Some(value) => 1 <= index <= self@.parameters.len() && value@ == self@.parameters[index - 1],
                None => !(1 <= index <= self@.parameters.len()),
            },
    {
        if index >= 1 && index <= self.parameters.len() {
            Some(&self.parameters[index - 1])
        } else {
            None
        }
    }

    /// Returns the index of the first parameter with the given name, if there is one.
    ///
    /// The name includes its prefix, as in `:id`. The first parameter has index 1.
    pub fn parameter_index(&self, name: &str) -> (index: Option<usize>)
        ensures
            index == self@.parameter_position(name@),
    {
        proof {
            use_type_invariant(self);
        }
        let wanted = name.to_owned();
        let ghost names = self@.parameter_names;
        let count: usize = self.parameter_names.len();
        let mut k: usize = 0;
        while k < count
            invariant
                k <= count,
                count == self.parameter_names@.len(),
                names == optional_names_view(self.parameter_names@),
                wanted@ == name@,
                forall|j: int| 0 <= j < k ==> names[j] != Some(name@),
            decreases count - k,
        {
            let found = match &self.parameter_names[k] {
                Some(candidate) => candidate.eq(&wanted),
                None => false,
            };
            if found {
                proof {
                    assert(names[k as int] == Some(name@));
                    names.index_of_first_ensures(Some(name@));
                }
                return Some(k + 1);
            }
            k = k + 1;
        }
        proof {
            names.index_of_first_ensures(Some(name@));
        }
        None
    }

    /// Returns the number of result columns.
    pub fn column_count(&self) -> (count: usize)
        ensures
            count == self@.column_names.len(),
    {
        self.column_names.len()
    }

    /// Returns the position of the first column with the given name, if there is one.
    pub fn column_position(&self, name: &str) -> (position: Option<usize>)
        ensures
            position == self@.column_position(name@),
    {
        let wanted = name.to_owned();
        let ghost names = self@.column_names;
        let count: usize = self.column_names.len();
        let mut k: usize = 0;
        while k < count
            invariant
                k <= count,
                count == self.column_names@.len(),
                names == names_view(self.column_names@),
                wanted@ == name@,
                forall|j: int| 0 <= j < k ==> names[j] != name@,
            decreases count - k,
        {
            if self.column_names[k].eq(&wanted) {
                proof {
                    assert(names[k as int] == name@);
                    names.index_of_first_ensures(name@);
                }
                return Some(k);
            }
            k = k + 1;
        }
        proof {
            names.index_of_first_ensures(name@);
        }
        None
    }

    /// Returns the names of the result columns.
    pub fn column_names(&self) -> (names: &[String])
        ensures
            names_view(names@) == self@.column_names,
    {
        self.column_names.as_slice()
    }

    /// Binds a value or a list of values to parameters.
    pub fn bind<B: Bindable>(&mut self, value: B) -> (outcome: Result<(), Error>)
        ensures
            (final(self)@, outcome) == value.spec_bind(old(self)@),
    {
        value.bind(self)
    }

    /// Reads a value from a column of the current row.
    pub fn read<R: ReadableWithIndex, T: ColumnIndex>(&self, index: T) -> (result: Result<R, Error>)
        ensures
            match index.spec_column(self@) {
                Ok(position) => match R::spec_read(self@.column(position as int)) {
                    Ok(content) => result matches Ok(value) && value.content() == content,
                    Err(error) => result == Err::<R, Error>(error),
                },
                Err(error) => result == Err::<R, Error>(error),
            },
    {
        R::read(self, index)
    }

    /// Returns the name of a column.
    pub fn column_name<T: ColumnIndex>(&self, index: T) -> (name: Result<&str, Error>)
        ensures
            match index.spec_column(self@) {
                Ok(position) => name matches Ok(name) && name@ == self@.column_names[position as int],
                Err(error) => name == Err::<&str, Error>(error),
            },
    {
        let position: usize = index.index(self)?;
        Ok(self.column_names[position].as_str())
    }

    /// Returns the storage class of a column of the current row; without a current row every
    /// column is null.
    pub fn column_type<T: ColumnIndex>(&self, index: T) -> (kind: Result<Type, Error>)
        ensures
            match index.spec_column(self@) {
                Ok(position) => kind == Ok::<Type, Error>(self@.column(position as int).kind),
                Err(error) => kind == Err::<Type, Error>(error),
            },
    {
        let position: usize = index.index(self)?;
        Ok(self.raw_type(position))
    }

    /// Binds `value` to the parameter with index `index` (the first parameter has index 1).
    pub fn bind_value(&mut self, index: i32, value: Value) -> (outcome: Result<(), Error>)
        ensures
            (final(self)@, outcome) == old(self)@.bind(index, value@),
    {
        proof {
            use_type_invariant(&*self);
        }
        if self.stepped {
            return Err(Error::Misuse);
        }
        if index < 1 || index as usize > self.parameters.len() {
            return Err(Error::Range);
        }
        let ghost before = self@;
        let slot: usize = (index - 1) as usize;
        let too_big = match &value {
            Value::Binary(bytes) => bytes.len() > self.length_limit,
            Value::String(text) => text.as_str().as_bytes().len() > self.length_limit,
            _ => false,
        };
        if too_big {
            self.parameters[slot] = Value::Null;
            proof {
                assert(self@.parameters =~= before.parameters.update(index - 1, ValueView::Null));
            }
            return Err(Error::TooBig);
        }
        let stored = match value {
            Value::Float(bits) => if Double(bits).is_nan() {
                Value::Null
            } else {
                Value::Float(bits)
            },
            other => other,
        };
        self.parameters[slot] = stored;
        proof {
            assert(self@.parameters =~= before.parameters.update(index - 1, value@.stored()));
        }
        Ok(())
    }

    /// Records a step of the statement, which produced `row`, or no row when there are no more.
    /// Like every row that SQLite reports, `row` has one column per result column, and each of
    /// its null columns reads as zero and null pointers.
    pub fn advance(&mut self, row: Option<Vec<Column>>) -> (state: State)
        requires
            row_view(row) matches Some(columns) ==> {
                &&& columns.len() == old(self)@.column_names.len()
                &&& forall|k: int| 0 <= k < columns.len() ==> (#[trigger] columns[k]).null_reads_as_null()
            },
        ensures
            final(self)@ == old(self)@.advance(row_view(row)),
            state == (if row is Some { State::Row } else { State::Done }),
    {
        proof {
            use_type_invariant(&*self);
        }
        let state = if row.is_some() { State::Row } else { State::Done };
        self.row = row;
        self.stepped = true;
        state
    }

    /// Resets the statement so that it can run again. The bindings are kept.
    pub fn reset(&mut self)
        ensures
            final(self)@ == old(self)@.reset(),
    {
        proof {
            use_type_invariant(&*self);
        }
        self.row = None;
        self.stepped = false;
    }

    /// The storage class of the column at `position`, as SQLite reports it.
    pub fn raw_type(&self, position: usize) -> (kind: Type)
        ensures
            kind == self@.column(position as int).kind,
    {
        match &self.row {
            Some(row) => if position < row.len() {
                row[position].kind
            } else {
                Type::Null
            },
            None => Type::Null,
        }
    }

    /// The integer of the column at `position`, as SQLite reports it.
    pub fn raw_integer(&self, position: usize) -> (number: i64)
        ensures
            number == self@.column(position as int).integer,
    {
        match &self.row {
            Some(row) => if position < row.len() {
                row[position].integer
            } else {
                0
            },
            None => 0,
        }
    }

    /// The floating-point bit pattern of the column at `position`, as SQLite reports it.
    pub fn raw_float(&self, position: usize) -> (bits: u64)
        ensures
            bits == self@.column(position as int).float,
    {
        match &self.row {
            Some(row) => if position < row.len() {
                row[position].float
            } else {
                0
            },
            None => 0,
        }
    }

    /// The text of the column at `position`, as SQLite reports it; `None` for a null pointer.
    pub fn raw_text(&self, position: usize) -> (text: Option<&str>)
        ensures
            match self@.column(position as int).text {
                Some(expected) => text matches Some(text) && text@ == expected,
                None => text is None,
            },
    {
        match &self.row {
            Some(row) => if position < row.len() {
                match &row[position].text {
                    Some(text) => Some(text.as_str()),
                    None => None,
                }
            } else {
                None
            },
            None => None,
        }
    }

    /// The bytes of the column at `position`, as SQLite reports them; `None` for a null pointer.
    pub fn raw_blob(&self, position: usize) -> (bytes: Option<&[u8]>)
        ensures
            match self@.column(position as int).blob {
                Some(expected) => bytes matches Some(bytes) && bytes@ == expected,
                None => bytes is None,
            },
    {
        match &self.row {
            Some(row) => if position < row.len() {
                match &row[position].blob {
                    Some(bytes) => Some(bytes.as_slice()),
                    None => None,
                }
            } else {
                None
            },
            None => None,
        }
    }
}

} // verus!
