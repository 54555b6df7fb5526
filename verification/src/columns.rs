//! Bindable and readable types.

use vstd::prelude::*;

use crate::index::{ColumnIndex, ParameterIndex};
use crate::statement::{Statement, StatementView};
use crate::value::{ColumnView, Double, Error, Type, Value, ValueView};

verus! {

/// Binding `value` to the parameter that an index resolved to: the statement afterwards and the
/// outcome. The index is handed to SQLite as a C `int`.
pub open spec fn bind_resolved(
    statement: StatementView,
    index: Result<usize, Error>,
    value: ValueView,
) -> (StatementView, Result<(), Error>) {
    match index {
        Ok(index) => statement.bind(index as i32, value),
        Err(error) => (statement, Err(error)),
    }
}

/// Binding `values` in order to the parameters with indices 1, 2, and so on, stopping at the
/// first failure.
pub open spec fn bind_in_order(statement: StatementView, values: Seq<ValueView>) -> (
    StatementView,
    Result<(), Error>,
)
    decreases values.len(),
{
    if values.len() == 0 {
        (statement, Ok(()))
    } else {
        let (before, outcome) = bind_in_order(statement, values.drop_last());
        match outcome {
            Ok(_) => bind_resolved(before, Ok(values.len() as usize), values.last()),
            Err(error) => (before, Err(error)),
        }
    }
}

/// Binding each value of `pairs` to the parameter that its index names, in order, stopping at
/// the first failure.
pub open spec fn bind_each<T: ParameterIndex>(statement: StatementView, pairs: Seq<(T, ValueView)>) -> (
    StatementView,
    Result<(), Error>,
)
    decreases pairs.len(),
{
    if pairs.len() == 0 {
        (statement, Ok(()))
    } else {
        let (before, outcome) = bind_each(statement, pairs.drop_last());
        match outcome {
            Ok(_) => bind_resolved(before, pairs.last().0.spec_parameter(before), pairs.last().1),
            Err(error) => (before, Err(error)),
        }
    }
}

/// The value that binding a reference to `value` binds.
pub open spec fn bound_by_ref<T>(value: T) -> ValueView where for <'a>&'a T: BindableWithIndex {
    (&value).bound_value()
}

/// A type suitable for binding to a prepared statement.
pub trait Bindable: Sized {
    /// What binding does: the statement afterwards and the outcome.
    spec fn spec_bind(self, statement: StatementView) -> (StatementView, Result<(), Error>);

    /// Bind to a parameter.
    fn bind(self, statement: &mut Statement) -> (outcome: Result<(), Error>)
        ensures
            (final(statement)@, outcome) == self.spec_bind(old(statement)@),
    ;
}

/// A type suitable for binding to a prepared statement given a parameter index.
pub trait BindableWithIndex: Sized {
    /// The value that binding this stores in the parameter.
    spec fn bound_value(&self) -> ValueView;

    /// Bind to a parameter.
    ///
    /// In case of integer indices, the first parameter has index 1.
    fn bind<T: ParameterIndex>(self, statement: &mut Statement, index: T) -> (outcome: Result<
        (),
        Error,
    >)
        ensures
            (final(statement)@, outcome) == bind_resolved(
                old(statement)@,
                index.spec_parameter(old(statement)@),
                self.bound_value(),
            ),
    ;
}

/// A type suitable for reading from a prepared statement given a column index.
pub trait ReadableWithIndex: Sized {
    /// The mathematical content of a value read.
    type Content;

    /// The content of `self`.
    spec fn content(&self) -> Self::Content;

    /// What reading from a column that SQLite reports as `column` gives.
    spec fn spec_read(column: ColumnView) -> Result<Self::Content, Error>;

    /// Read from a column.
    ///
    /// In case of integer indices, the first column has index 0.
    fn read<T: ColumnIndex>(statement: &Statement, index: T) -> (result: Result<Self, Error>)
        ensures
            match index.spec_column(statement@) {
                Ok(position) => match Self::spec_read(statement@.column(position as int)) {
                    Ok(content) => result matches Ok(value) && value.content() == content,
                    Err(error) => result == Err::<Self, Error>(error),
                },
                Err(error) => result == Err::<Self, Error>(error),
            },
    ;
}

/// Binds `value` to the parameter that `index` names.
fn bind_to<T: ParameterIndex>(statement: &mut Statement, index: T, value: Value) -> (outcome: Result<
    (),
    Error,
>)
    ensures
        (final(statement)@, outcome) == bind_resolved(
            old(statement)@,
            index.spec_parameter(old(statement)@),
            value@,
        ),
{
    let index: usize = index.index(statement)?;
    statement.bind_value(index as i32, value)
}

impl<T, U> Bindable for (T, U) where T: ParameterIndex, U: BindableWithIndex {
    open spec fn spec_bind(self, statement: StatementView) -> (StatementView, Result<(), Error>) {
        bind_resolved(statement, self.0.spec_parameter(statement), self.1.bound_value())
    }

    fn bind(self, statement: &mut Statement) -> (outcome: Result<(), Error>) {
        self.1.bind(statement, self.0)
    }
}

/// Once binding in order has failed, binding further values changes nothing.
pub(crate) proof fn lemma_bind_in_order_stops(statement: StatementView, values: Seq<ValueView>, count: int)
    requires
        0 <= count <= values.len(),
        bind_in_order(statement, values.take(count)).1 is Err,
    ensures
        bind_in_order(statement, values) == bind_in_order(statement, values.take(count)),
    decreases values.len(),
{
    if values.len() == count {
        assert(values.take(count) =~= values);
    } else {
        assert(values.drop_last().take(count) =~= values.take(count));
        lemma_bind_in_order_stops(statement, values.drop_last(), count);
    }
}

/// Once binding each pair has failed, binding further pairs changes nothing.
proof fn lemma_bind_each_stops<T: ParameterIndex>(
    statement: StatementView,
    pairs: Seq<(T, ValueView)>,
    count: int,
)
    requires
        0 <= count <= pairs.len(),
        bind_each(statement, pairs.take(count)).1 is Err,
    ensures
        bind_each(statement, pairs) == bind_each(statement, pairs.take(count)),
    decreases pairs.len(),
{
    if pairs.len() == count {
        assert(pairs.take(count) =~= pairs);
    } else {
        assert(pairs.drop_last().take(count) =~= pairs.take(count));
        lemma_bind_each_stops(statement, pairs.drop_last(), count);
    }
}

impl<'s, V> Bindable for &'s [V] where for <'a>&'a V: BindableWithIndex {
    /// The values are bound in order to the parameters with indices 1, 2, and so on.
    open spec fn spec_bind(self, statement: StatementView) -> (StatementView, Result<(), Error>) {
        bind_in_order(statement, self@.map_values(|value: V| bound_by_ref::<V>(value)))
    }

    fn bind(self, statement: &mut Statement) -> (outcome: Result<(), Error>) {
        let ghost values = self@.map_values(|value: V| bound_by_ref::<V>(value));
        let ghost start = old(statement)@;
        let count: usize = self.len();
        let mut k: usize = 0;
        assert(values.take(0) =~= Seq::<ValueView>::empty());
        while k < count
            invariant
                count == self@.len(),
                k <= count,
                start == old(statement)@,
                values == self@.map_values(|value: V| bound_by_ref::<V>(value)),
                (statement@, Ok::<(), Error>(())) == bind_in_order(start, values.take(k as int)),
            decreases count - k,
        {
            let value = &self[k];
            proof {
                assert(values.take(k + 1).drop_last() =~= values.take(k as int));
            }
            match value.bind(statement, k + 1) {
                Ok(()) => {},
                Err(error) => {
                    proof {
                        lemma_bind_in_order_stops(start, values, k + 1);
                    }
                    return Err(error);
                },
            }
            k = k + 1;
        }
        assert(values.take(count as int) =~= values);
        Ok(())
    }
}

impl<'s, I, V> Bindable for &'s [(I, V)] where I: ParameterIndex, for <'a>&'a V: BindableWithIndex {
    /// Each value is bound, in order, to the parameter that its index names.
    open spec fn spec_bind(self, statement: StatementView) -> (StatementView, Result<(), Error>) {
        bind_each(statement, self@.map_values(|pair: (I, V)| (pair.0, bound_by_ref::<V>(pair.1))))
    }

    fn bind(self, statement: &mut Statement) -> (outcome: Result<(), Error>) {
        let ghost pairs = self@.map_values(|pair: (I, V)| (pair.0, bound_by_ref::<V>(pair.1)));
        let ghost start = old(statement)@;
        let count: usize = self.len();
        let mut k: usize = 0;
        assert(pairs.take(0) =~= Seq::<(I, ValueView)>::empty());
        while k < count
            invariant
                count == self@.len(),
                k <= count,
                start == old(statement)@,
                pairs == self@.map_values(|pair: (I, V)| (pair.0, bound_by_ref::<V>(pair.1))),
                (statement@, Ok::<(), Error>(())) == bind_each(start, pairs.take(k as int)),
            decreases count - k,
        {
            let pair = &self[k];
            proof {
                assert(pairs.take(k + 1).drop_last() =~= pairs.take(k as int));
            }
            match (&pair.1).bind(statement, pair.0) {
                Ok(()) => {},
                Err(error) => {
                    proof {
                        lemma_bind_each_stops(start, pairs, k + 1);
                    }
                    return Err(error);
                },
            }
            k = k + 1;
        }
        assert(pairs.take(count as int) =~= pairs);
        Ok(())
    }
}

/// Copies `bytes` into a vector of their own.
fn copy_bytes(bytes: &[u8]) -> (copy: Vec<u8>)
    ensures
        copy@ == bytes@,
{
    let mut copy: Vec<u8> = Vec::new();
    let mut k: usize = 0;
    while k < bytes.len()
        invariant
            k <= bytes@.len(),
            copy@ == bytes@.take(k as int),
        decreases bytes@.len() - k,
    {
        copy.push(bytes[k]);
        k = k + 1;
        assert(copy@ =~= bytes@.take(k as int));
    }
    assert(bytes@.take(k as int) =~= bytes@);
    copy
}

impl<'a> BindableWithIndex for &'a [u8] {
    open spec fn bound_value(&self) -> ValueView {
        ValueView::Binary(self@)
    }

    fn bind<T: ParameterIndex>(self, statement: &mut Statement, index: T) -> (outcome: Result<
        (),
        Error,
    >) {
        bind_to(statement, index, Value::Binary(copy_bytes(self)))
    }
}

impl BindableWithIndex for Double {
    open spec fn bound_value(&self) -> ValueView {
        ValueView::Float(self.0)
    }

    fn bind<T: ParameterIndex>(self, statement: &mut Statement, index: T) -> (outcome: Result<
        (),
        Error,
    >) {
        bind_to(statement, index, Value::Float(self.0))
    }
}

impl BindableWithIndex for i64 {
    open spec fn bound_value(&self) -> ValueView {
        ValueView::Integer(*self)
    }

    fn bind<T: ParameterIndex>(self, statement: &mut Statement, index: T) -> (outcome: Result<
        (),
        Error,
    >) {
        bind_to(statement, index, Value::Integer(self))
    }
}

impl<'a> BindableWithIndex for &'a str {
    open spec fn bound_value(&self) -> ValueView {
        ValueView::String(self@)
    }

    fn bind<T: ParameterIndex>(self, statement: &mut Statement, index: T) -> (outcome: Result<
        (),
        Error,
    >) {
        bind_to(statement, index, Value::String(self.to_owned()))
    }
}

impl BindableWithIndex for () {
    open spec fn bound_value(&self) -> ValueView {
        ValueView::Null
    }

    fn bind<T: ParameterIndex>(self, statement: &mut Statement, index: T) -> (outcome: Result<
        (),
        Error,
    >) {
        bind_to(statement, index, Value::Null)
    }
}

impl BindableWithIndex for Value {
    open spec fn bound_value(&self) -> ValueView {
        self@
    }

    fn bind<T: ParameterIndex>(self, statement: &mut Statement, index: T) -> (outcome: Result<
        (),
        Error,
    >) {
        (index, &self).bind(statement)
    }
}

impl<'a> BindableWithIndex for &'a Value {
    open spec fn bound_value(&self) -> ValueView {
        (**self)@
    }

    fn bind<T: ParameterIndex>(self, statement: &mut Statement, index: T) -> (outcome: Result<
        (),
        Error,
    >) {
        match self {
            Value::Binary(value) => value.as_slice().bind(statement, index),
            Value::Float(value) => Double(*value).bind(statement, index),
            Value::Integer(value) => (*value).bind(statement, index),
            Value::String(value) => value.as_str().bind(statement, index),
            Value::Null => ().bind(statement, index),
        }
    }
}

impl<V> BindableWithIndex for Option<V> where V: BindableWithIndex {
    open spec fn bound_value(&self) -> ValueView {
        match self {
            Some(value) => value.bound_value(),
            None => ValueView::Null,
        }
    }

    fn bind<T: ParameterIndex>(self, statement: &mut Statement, index: T) -> (outcome: Result<
        (),
        Error,
    >) {
        match self {
            Some(value) => value.bind(statement, index),
            None => ().bind(statement, index),
        }
    }
}

impl<'a, V> BindableWithIndex for &'a Option<V> where for <'b>&'b V: BindableWithIndex {
    open spec fn bound_value(&self) -> ValueView {
        match **self {
            Some(value) => bound_by_ref::<V>(value),
            None => ValueView::Null,
        }
    }

    fn bind<T: ParameterIndex>(self, statement: &mut Statement, index: T) -> (outcome: Result<
        (),
        Error,
    >) {
        match self {
            Some(value) => value.bind(statement, index),
            None => ().bind(statement, index),
        }
    }
}

impl<'a> BindableWithIndex for &'a i64 {
    open spec fn bound_value(&self) -> ValueView {
        ValueView::Integer(**self)
    }

    fn bind<T: ParameterIndex>(self, statement: &mut Statement, index: T) -> (outcome: Result<
        (),
        Error,
    >) {
        (*self).bind(statement, index)
    }
}

impl<'a> BindableWithIndex for &'a Double {
    open spec fn bound_value(&self) -> ValueView {
        ValueView::Float(self.0)
    }

    fn bind<T: ParameterIndex>(self, statement: &mut Statement, index: T) -> (outcome: Result<
        (),
        Error,
    >) {
        (*self).bind(statement, index)
    }
}

impl<'a, 'b> BindableWithIndex for &'a &'b str {
    open spec fn bound_value(&self) -> ValueView {
        ValueView::String((**self)@)
    }

    fn bind<T: ParameterIndex>(self, statement: &mut Statement, index: T) -> (outcome: Result<
        (),
        Error,
    >) {
        (*self).bind(statement, index)
    }
}

impl<'a, 'b> BindableWithIndex for &'a &'b [u8] {
    open spec fn bound_value(&self) -> ValueView {
        ValueView::Binary((**self)@)
    }

    fn bind<T: ParameterIndex>(self, statement: &mut Statement, index: T) -> (outcome: Result<
        (),
        Error,
    >) {
        (*self).bind(statement, index)
    }
}

impl<'a> BindableWithIndex for &'a () {
    open spec fn bound_value(&self) -> ValueView {
        ValueView::Null
    }

    fn bind<T: ParameterIndex>(self, statement: &mut Statement, index: T) -> (outcome: Result<
        (),
        Error,
    >) {
        ().bind(statement, index)
    }
}

impl<'a, 'b> BindableWithIndex for &'a &'b Value {
    open spec fn bound_value(&self) -> ValueView {
        (***self)@
    }

    fn bind<T: ParameterIndex>(self, statement: &mut Statement, index: T) -> (outcome: Result<
        (),
        Error,
    >) {
        (*self).bind(statement, index)
    }
}

impl<'a, 'b, V> BindableWithIndex for &'a &'b Option<V> where for <'c>&'c V: BindableWithIndex {
    open spec fn bound_value(&self) -> ValueView {
        match ***self {
            Some(value) => bound_by_ref::<V>(value),
            None => ValueView::Null,
        }
    }

    fn bind<T: ParameterIndex>(self, statement: &mut Statement, index: T) -> (outcome: Result<
        (),
        Error,
    >) {
        (*self).bind(statement, index)
    }
}

/// The bytes that reading a blob gives: those SQLite reports, none for a null pointer.
pub open spec fn blob_of(column: ColumnView) -> Seq<u8> {
    match column.blob {
        Some(bytes) => bytes,
        None => Seq::empty(),
    }
}

/// The text that reading a string gives; a null pointer is an error.
pub open spec fn text_of(column: ColumnView) -> Result<Seq<char>, Error> {
    match column.text {
        Some(text) => Ok(text),
        None => Err(Error::NotText),
    }
}

impl ReadableWithIndex for Vec<u8> {
    type Content = Seq<u8>;

    open spec fn content(&self) -> Seq<u8> {
        self@
    }

    open spec fn spec_read(column: ColumnView) -> Result<Seq<u8>, Error> {
        Ok(blob_of(column))
    }

    fn read<T: ColumnIndex>(statement: &Statement, index: T) -> (result: Result<Vec<u8>, Error>) {
        let position: usize = index.index(statement)?;
        match statement.raw_blob(position) {
            None => Ok(Vec::new()),
            Some(bytes) => Ok(copy_bytes(bytes)),
        }
    }
}

impl ReadableWithIndex for Double {
    type Content = u64;

    open spec fn content(&self) -> u64 {
        self.0
    }

    open spec fn spec_read(column: ColumnView) -> Result<u64, Error> {
        Ok(column.float)
    }

    fn read<T: ColumnIndex>(statement: &Statement, index: T) -> (result: Result<Double, Error>) {
        let position: usize = index.index(statement)?;
        Ok(Double(statement.raw_float(position)))
    }
}

impl ReadableWithIndex for i64 {
    type Content = i64;

    open spec fn content(&self) -> i64 {
        *self
    }

    open spec fn spec_read(column: ColumnView) -> Result<i64, Error> {
        Ok(column.integer)
    }

    fn read<T: ColumnIndex>(statement: &Statement, index: T) -> (result: Result<i64, Error>) {
        let position: usize = index.index(statement)?;
        Ok(statement.raw_integer(position))
    }
}

impl ReadableWithIndex for String {
    type Content = Seq<char>;

    open spec fn content(&self) -> Seq<char> {
        self@
    }

    open spec fn spec_read(column: ColumnView) -> Result<Seq<char>, Error> {
        text_of(column)
    }

    fn read<T: ColumnIndex>(statement: &Statement, index: T) -> (result: Result<String, Error>) {
        let position: usize = index.index(statement)?;
        match statement.raw_text(position) {
            Some(text) => Ok(text.to_owned()),
            None => Err(Error::NotText),
        }
    }
}

impl ReadableWithIndex for Value {
    type Content = ValueView;

    open spec fn content(&self) -> ValueView {
        self@
    }

    /// The value of the storage class that SQLite reports for the column.
    open spec fn spec_read(column: ColumnView) -> Result<ValueView, Error> {
        match column.kind {
            Type::Binary => Ok(ValueView::Binary(blob_of(column))),
            Type::Float => Ok(ValueView::Float(column.float)),
            Type::Integer => Ok(ValueView::Integer(column.integer)),
            Type::String => match text_of(column) {
                Ok(text) => Ok(ValueView::String(text)),
                Err(error) => Err(error),
            },
            Type::Null => Ok(ValueView::Null),
        }
    }

    fn read<T: ColumnIndex>(statement: &Statement, index: T) -> (result: Result<Value, Error>) {
        let value = match statement.column_type(index)? {
            Type::Binary => Value::Binary(<Vec<u8> as ReadableWithIndex>::read(statement, index)?),
            Type::Float => Value::Float(<Double as ReadableWithIndex>::read(statement, index)?.0),
            Type::Integer => Value::Integer(<i64 as ReadableWithIndex>::read(statement, index)?),
            Type::String => Value::String(<String as ReadableWithIndex>::read(statement, index)?),
            Type::Null => Value::Null,
        };
        Ok(value)
    }
}

impl<R: ReadableWithIndex> ReadableWithIndex for Option<R> {
    type Content = Option<R::Content>;

    open spec fn content(&self) -> Option<R::Content> {
        match self {
            Some(value) => Some(value.content()),
            None => None,
        }
    }

    /// Nothing for a null column, else what reading the inner type gives.
    open spec fn spec_read(column: ColumnView) -> Result<Option<R::Content>, Error> {
        if column.kind == Type::Null {
            Ok(None)
        } else {
            match R::spec_read(column) {
                Ok(content) => Ok(Some(content)),
                Err(error) => Err(error),
            }
        }
    }

    fn read<T: ColumnIndex>(statement: &Statement, index: T) -> (result: Result<Option<R>, Error>) {
        if statement.column_type(index)? == Type::Null {
            Ok(None)
        } else {
            match R::read(statement, index) {
                Ok(value) => Ok(Some(value)),
                Err(error) => Err(error),
            }
        }
    }
}

} // verus!
