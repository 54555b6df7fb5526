//! Properties of binding and reading that hold across calls.

use vstd::prelude::*;

use crate::columns::{
    bind_each, bind_in_order, bind_resolved, bound_by_ref, lemma_bind_in_order_stops, BindableWithIndex,
    ReadableWithIndex,
};
use crate::index::{ColumnIndex, ParameterIndex};
use crate::statement::StatementView;
use crate::value::{is_nan_bits, Column, ColumnView, Double, Error, Type, Value, ValueView};

verus! {

/// Within the range that can name a parameter, handing a `usize` index to SQLite as a C `int`
/// keeps it, except that one past `i32::MAX` becomes negative.
proof fn lemma_index_as_c_int(index: usize)
    requires
        1 <= index <= 0x8000_0000,
    ensures
        index <= 0x7fff_ffff ==> index as i32 == index,
        index == 0x8000_0000 ==> (index as i32) < 1,
{
    assert(1 <= index <= 0x8000_0000 ==> (index <= 0x7fff_ffff ==> index as i32 == index)) by (bit_vector);
    assert(index == 0x8000_0000 ==> (index as i32) < 1) by (bit_vector);
}

/// A bind changes at most its own parameter. A running statement refuses every bind, and an
/// index outside `1..=count` is out of range; neither changes anything. Otherwise a blob or a
/// string longer than the length limit leaves the parameter null and fails, and any other value
/// is stored as SQLite stores it: unchanged, but a NaN as null.
pub proof fn law_bind_stores_one_parameter(statement: StatementView, index: i32, value: ValueView)
    requires
        statement.wf(),
    ensures
        ({
            let (after, outcome) = statement.bind(index, value);
            let in_range = 1 <= index <= statement.parameters.len();
            &&& after.wf()
            &&& after.parameter_names == statement.parameter_names
            &&& after.column_names == statement.column_names
            &&& after.row == statement.row
            &&& after.stepped == statement.stepped
            &&& after.length_limit == statement.length_limit
            &&& after.parameters.len() == statement.parameters.len()
            &&& statement.stepped ==> after == statement && outcome == Err::<(), Error>(Error::Misuse)
            &&& !statement.stepped && !in_range ==> after == statement && outcome == Err::<(), Error>(
                Error::Range,
            )
            &&& !statement.stepped && in_range && value.byte_length() > statement.length_limit ==> {
                &&& outcome == Err::<(), Error>(Error::TooBig)
                &&& after.parameters[index - 1] == ValueView::Null
            }
            &&& !statement.stepped && in_range && value.byte_length() <= statement.length_limit ==> {
                &&& outcome == Ok::<(), Error>(())
                &&& after.parameters[index - 1] == value.stored()
            }
            &&& forall|k: int|
                0 <= k < statement.parameters.len() && k != index - 1
                    ==> #[trigger] after.parameters[k] == statement.parameters[k]
        }),
{
}

/// SQLite stores a NaN as null and every other value as it is.
pub proof fn law_nan_is_stored_as_null(value: ValueView)
    ensures
        value.stored() == (match value {
            ValueView::Float(bits) => if is_nan_bits(bits) {
                ValueView::Null
            } else {
                value
            },
            _ => value,
        }),
        is_nan_bits(0x7ff8_0000_0000_0000u64),
        !is_nan_bits(0x7ff0_0000_0000_0000u64),
{
    assert(is_nan_bits(0x7ff8_0000_0000_0000u64)) by (bit_vector);
    assert(!is_nan_bits(0x7ff0_0000_0000_0000u64)) by (bit_vector);
}

/// Binding twice to one parameter leaves what the second bind leaves.
pub proof fn law_last_bind_wins(statement: StatementView, index: i32, first: ValueView, second: ValueView)
    ensures
        statement.bind(index, first).0.bind(index, second) == statement.bind(index, second),
{
    let (middle, _) = statement.bind(index, first);
    if !statement.stepped && 1 <= index <= statement.parameters.len() {
        assert(middle.parameters.update(index - 1, second.stored()) =~= statement.parameters.update(
            index - 1,
            second.stored(),
        ));
        assert(middle.parameters.update(index - 1, ValueView::Null) =~= statement.parameters.update(
            index - 1,
            ValueView::Null,
        ));
    }
}

/// Binds to two different parameters can be made in either order.
pub proof fn law_binds_commute(
    statement: StatementView,
    index: i32,
    value: ValueView,
    other_index: i32,
    other_value: ValueView,
)
    requires
        index != other_index,
    ensures
        statement.bind(index, value).0.bind(other_index, other_value).0 == statement.bind(
            other_index,
            other_value,
        ).0.bind(index, value).0,
{
    let one = statement.bind(index, value).0.bind(other_index, other_value).0;
    let two = statement.bind(other_index, other_value).0.bind(index, value).0;
    assert(one.parameters =~= two.parameters);
}

/// Binding never changes what reading sees: the result columns, the current row, and hence
/// every column and every name lookup stay as they were.
pub proof fn law_binding_leaves_reads(statement: StatementView, index: i32, value: ValueView, position: int)
    ensures
        ({
            let after = statement.bind(index, value).0;
            &&& after.column_names == statement.column_names
            &&& after.row == statement.row
            &&& after.column(position) == statement.column(position)
            &&& forall|name: Seq<char>| #[trigger] after.parameter_position(name) == statement.parameter_position(name)
            &&& forall|name: Seq<char>| #[trigger] after.column_position(name) == statement.column_position(name)
        }),
{
}

/// A name that some parameter has names the index of the first such parameter, and binding
/// by the name is binding at that index. A name that no parameter has is refused.
pub proof fn law_bind_by_name(statement: StatementView, name: &str, value: ValueView)
    requires
        statement.wf(),
    ensures
        match statement.parameter_position(name@) {
            Some(index) => {
                &&& 1 <= index <= statement.parameter_names.len()
                &&& statement.parameter_names[index - 1] == Some(name@)
                &&& forall|k: int| 0 <= k < index - 1 ==> statement.parameter_names[k] != Some(name@)
                &&& bind_resolved(statement, name.spec_parameter(statement), value) == bind_resolved(
                    statement,
                    index.spec_parameter(statement),
                    value,
                )
            },
            None => {
                &&& forall|k: int|
                    0 <= k < statement.parameter_names.len() ==> statement.parameter_names[k] != Some(name@)
                &&& bind_resolved(statement, name.spec_parameter(statement), value) == (
                    statement,
                    Err::<(), Error>(Error::UnknownParameter),
                )
            },
        },
{
    statement.parameter_names.index_of_first_ensures(Some(name@));
    if !statement.parameter_names.contains(Some(name@)) {
        assert forall|k: int| 0 <= k < statement.parameter_names.len() implies statement.parameter_names[k] != Some(name@) by {
            if statement.parameter_names[k] == Some(name@) {
                assert(statement.parameter_names.contains(Some(name@)));
            }
        }
    }
}

/// A name that some column has names the first such column, and reading by the name reads
/// that position. A name that no column has is out of range.
pub proof fn law_column_by_name(statement: StatementView, name: &str)
    requires
        statement.wf(),
    ensures
        match statement.column_position(name@) {
            Some(position) => {
                &&& position < statement.column_names.len()
                &&& statement.column_names[position as int] == name@
                &&& forall|k: int| 0 <= k < position ==> statement.column_names[k] != name@
                &&& name.spec_column(statement) == position.spec_column(statement)
            },
            None => {
                &&& forall|k: int| 0 <= k < statement.column_names.len() ==> statement.column_names[k] != name@
                &&& name.spec_column(statement) == Err::<usize, Error>(Error::ColumnOutOfRange)
            },
        },
{
    statement.column_names.index_of_first_ensures(name@);
    if !statement.column_names.contains(name@) {
        assert forall|k: int| 0 <= k < statement.column_names.len() implies statement.column_names[k] != name@ by {
            if statement.column_names[k] == name@ {
                assert(statement.column_names.contains(name@));
            }
        }
    }
}

/// What SQLite stores for each of `values`.
pub open spec fn stored_all(values: Seq<ValueView>) -> Seq<ValueView> {
    values.map_values(|value: ValueView| value.stored())
}

/// Binding a list of values in order, when none that reaches a parameter is too long: an empty
/// list always succeeds and changes nothing; a running statement refuses any other; otherwise
/// the list succeeds exactly when it is no longer than the parameter count, and in either case
/// the values fill the parameters from the first on, up to the count.
pub proof fn law_bind_in_order(statement: StatementView, values: Seq<ValueView>)
    requires
        statement.wf(),
        forall|k: int|
            0 <= k < values.len() && k < statement.parameters.len() ==> (#[trigger] values[k]).byte_length()
                <= statement.length_limit,
    ensures
        ({
            let (after, outcome) = bind_in_order(statement, values);
            let count: nat = statement.parameters.len();
            if values.len() == 0 {
                after == statement && outcome == Ok::<(), Error>(())
            } else if statement.stepped {
                after == statement && outcome == Err::<(), Error>(Error::Misuse)
            } else if values.len() <= count {
                &&& outcome == Ok::<(), Error>(())
                &&& after == StatementView {
                    parameters: stored_all(values) + statement.parameters.skip(values.len() as int),
                    ..statement
                }
            } else {
                &&& outcome == Err::<(), Error>(Error::Range)
                &&& after == StatementView { parameters: stored_all(values.take(count as int)), ..statement }
            }
        }),
    decreases values.len(),
{
    let count: nat = statement.parameters.len();
    let n: nat = values.len();
    if n == 0 {
        return;
    }
    let prefix = values.drop_last();
    law_bind_in_order(statement, prefix);
    if n - 1 == 0 {
        assert(statement.parameters.skip(0) =~= statement.parameters);
        assert(stored_all(prefix) =~= Seq::<ValueView>::empty());
    }
    if !statement.stepped && n - 1 <= count {
        lemma_index_as_c_int(n as usize);
        let (before, _) = bind_in_order(statement, prefix);
        if n <= count {
            assert(before.parameters.update(n - 1, values.last().stored()) =~= stored_all(values)
                + statement.parameters.skip(n as int));
        } else {
            assert(before.parameters =~= stored_all(values.take(count as int)));
        }
    } else if !statement.stepped {
        assert(prefix.take(count as int) =~= values.take(count as int));
    }
}

/// Binding a list of values in order, when the value at position `first` is the first too
/// long for the length limit and reaches a parameter: the values before it are stored, its
/// parameter is left null, the rest keep their values, and the bind fails as too big.
pub proof fn law_bind_in_order_too_big(statement: StatementView, values: Seq<ValueView>, first: int)
    requires
        statement.wf(),
        !statement.stepped,
        0 <= first < values.len(),
        first < statement.parameters.len(),
        values[first].byte_length() > statement.length_limit,
        forall|k: int| 0 <= k < first ==> (#[trigger] values[k]).byte_length() <= statement.length_limit,
    ensures
        bind_in_order(statement, values) == (
            StatementView {
                parameters: stored_all(values.take(first)) + seq![ValueView::Null]
                    + statement.parameters.skip(first + 1),
                ..statement
            },
            Err::<(), Error>(Error::TooBig),
        ),
{
    let head = values.take(first);
    let upto = values.take(first + 1);
    law_bind_in_order(statement, head);
    assert(upto.drop_last() =~= head);
    lemma_index_as_c_int((first + 1) as usize);
    let (before, _) = bind_in_order(statement, head);
    if first == 0 {
        assert(statement.parameters.skip(0) =~= statement.parameters);
        assert(stored_all(head) =~= Seq::<ValueView>::empty());
    }
    assert(before.parameters.update(first, ValueView::Null) =~= stored_all(head) + seq![ValueView::Null]
        + statement.parameters.skip(first + 1));
    lemma_bind_in_order_stops(statement, values, first + 1);
}

/// Binding pairs whose indices are 1, 2, and so on is binding their values in order.
pub proof fn law_pairs_in_order(statement: StatementView, values: Seq<ValueView>)
    ensures
        bind_each(statement, Seq::new(values.len(), |k: int| ((k + 1) as usize, values[k]))) == bind_in_order(
            statement,
            values,
        ),
    decreases values.len(),
{
    let pairs = Seq::new(values.len(), |k: int| ((k + 1) as usize, values[k]));
    if values.len() > 0 {
        let prefix = values.drop_last();
        law_pairs_in_order(statement, prefix);
        assert(pairs.drop_last() =~= Seq::new(prefix.len(), |k: int| ((k + 1) as usize, prefix[k])));
    }
}

/// Binding `Some(value)` binds what binding `value` binds, and binding `None` binds null, as
/// binding `()` does.
pub proof fn law_option_binds_inner<V: BindableWithIndex>(value: V)
    ensures
        Some(value).bound_value() == value.bound_value(),
        None::<V>.bound_value() == ().bound_value(),
{
}

/// Binding a value binds it as it is, whether it is handed over or lent.
pub proof fn law_value_binds_itself(value: Value)
    ensures
        value.bound_value() == value@,
        (&value).bound_value() == value@,
{
}

/// Reading a value gives one of the storage class that SQLite reports for the column, unless
/// the text of a text column cannot be had.
pub proof fn law_value_read_keeps_class(column: ColumnView)
    ensures
        match <Value as ReadableWithIndex>::spec_read(column) {
            Ok(value) => value.kind() == column.kind,
            Err(error) => column.kind == Type::String && column.text is None && error == Error::NotText,
        },
{
}

/// Reading bytes, an integer or a floating-point number never fails once the column exists:
/// SQLite has an answer of each kind for every column.
pub proof fn law_plain_reads_succeed(column: ColumnView)
    ensures
        <Vec<u8> as ReadableWithIndex>::spec_read(column) is Ok,
        <i64 as ReadableWithIndex>::spec_read(column) == Ok::<i64, Error>(column.integer),
        <Double as ReadableWithIndex>::spec_read(column) == Ok::<u64, Error>(column.float),
{
}

/// Binding a plain value, whether handed over or lent (as the elements of a list are), binds
/// exactly that value: an integer with all its 64 bits, a floating-point number with its bit
/// pattern, a string with its whole text (the empty one too), bytes with every byte, and unit as
/// null. Lending a value binds what handing it over binds.
pub proof fn law_plain_values_bind_themselves(number: i64, double: Double, text: &str, bytes: &[u8])
    ensures
        number.bound_value() == ValueView::Integer(number),
        (&number).bound_value() == ValueView::Integer(number),
        bound_by_ref::<i64>(number) == number.bound_value(),
        double.bound_value() == ValueView::Float(double.0),
        (&double).bound_value() == ValueView::Float(double.0),
        bound_by_ref::<Double>(double) == double.bound_value(),
        text.bound_value() == ValueView::String(text@),
        (&text).bound_value() == ValueView::String(text@),
        bound_by_ref::<&str>(text) == text.bound_value(),
        bytes.bound_value() == ValueView::Binary(bytes@),
        (&bytes).bound_value() == ValueView::Binary(bytes@),
        bound_by_ref::<&[u8]>(bytes) == bytes.bound_value(),
        ().bound_value() == ValueView::Null,
        (&()).bound_value() == ValueView::Null,
        bound_by_ref::<()>(()) == ().bound_value(),
        Value::Integer(number).bound_value() == number.bound_value(),
        Value::Float(double.0).bound_value() == double.bound_value(),
        (&Value::Integer(number)).bound_value() == number.bound_value(),
{
}

/// A bind that gets past the checks leaves in the parameter exactly the integer, the text or the
/// bytes that were bound: the integer with all its bits, the text even when empty, every byte.
pub proof fn law_bind_keeps_plain_values(
    statement: StatementView,
    index: usize,
    number: i64,
    text: &str,
    bytes: &[u8],
)
    requires
        statement.wf(),
        !statement.stepped,
        1 <= index <= statement.parameters.len(),
    ensures
        ({
            let (after, outcome) = bind_resolved(statement, Ok(index), number.bound_value());
            outcome is Ok && after.parameters[index - 1] == ValueView::Integer(number)
        }),
        ({
            let (after, outcome) = bind_resolved(statement, Ok(index), (&text).bound_value());
            vstd::utf8::encode_utf8(text@).len() <= statement.length_limit ==> (outcome is Ok
                && after.parameters[index - 1] == ValueView::String(text@))
        }),
        ({
            let (after, outcome) = bind_resolved(statement, Ok(index), (&bytes).bound_value());
            bytes@.len() <= statement.length_limit ==> (outcome is Ok && after.parameters[index - 1]
                == ValueView::Binary(bytes@))
        }),
{
    lemma_index_as_c_int(index);
}

/// Each typed read gives exactly what SQLite reports for the column: the integer with all its
/// bits, the floating-point bit pattern, every byte of the blob (none for a null pointer), and
/// the whole text (the empty one too); reading text fails only for a null pointer.
pub proof fn law_reads_give_what_sqlite_reports(column: ColumnView, text: Seq<char>, bytes: Seq<u8>)
    ensures
        <i64 as ReadableWithIndex>::spec_read(column) == Ok::<i64, Error>(column.integer),
        <Double as ReadableWithIndex>::spec_read(column) == Ok::<u64, Error>(column.float),
        column.blob == Some(bytes) ==> <Vec<u8> as ReadableWithIndex>::spec_read(column) == Ok::<
            Seq<u8>,
            Error,
        >(bytes),
        column.blob is None ==> <Vec<u8> as ReadableWithIndex>::spec_read(column) == Ok::<Seq<u8>, Error>(
            Seq::empty(),
        ),
        column.text == Some(text) ==> <String as ReadableWithIndex>::spec_read(column) == Ok::<
            Seq<char>,
            Error,
        >(text),
        column.text is None ==> <String as ReadableWithIndex>::spec_read(column) == Err::<Seq<char>, Error>(
            Error::NotText,
        ),
{
}

/// Reading a value agrees with the typed read of the storage class that SQLite reports: an
/// integer column gives the integer read, a floating-point column the number read, a blob column
/// the bytes read, a text column the text read (or its error), and a null column null.
pub proof fn law_value_read_agrees_with_typed_reads(column: ColumnView)
    ensures
        column.kind == Type::Integer ==> <Value as ReadableWithIndex>::spec_read(column) == Ok::<
            ValueView,
            Error,
        >(ValueView::Integer(column.integer)),
        column.kind == Type::Integer ==> match <i64 as ReadableWithIndex>::spec_read(column) {
            Ok(number) => <Value as ReadableWithIndex>::spec_read(column) == Ok::<ValueView, Error>(
                ValueView::Integer(number),
            ),
            Err(_) => false,
        },
        column.kind == Type::Float ==> <Value as ReadableWithIndex>::spec_read(column) == Ok::<
            ValueView,
            Error,
        >(ValueView::Float(column.float)),
        column.kind == Type::Float ==> match <Double as ReadableWithIndex>::spec_read(column) {
            Ok(bits) => <Value as ReadableWithIndex>::spec_read(column) == Ok::<ValueView, Error>(
                ValueView::Float(bits),
            ),
            Err(_) => false,
        },
        column.kind == Type::Binary ==> match <Vec<u8> as ReadableWithIndex>::spec_read(column) {
            Ok(bytes) => <Value as ReadableWithIndex>::spec_read(column) == Ok::<ValueView, Error>(
                ValueView::Binary(bytes),
            ),
            Err(_) => false,
        },
        column.kind == Type::Binary && column.blob is Some ==> <Value as ReadableWithIndex>::spec_read(
            column,
        ) == Ok::<ValueView, Error>(ValueView::Binary(column.blob->Some_0)),
        column.kind == Type::String ==> match <String as ReadableWithIndex>::spec_read(column) {
            Ok(text) => <Value as ReadableWithIndex>::spec_read(column) == Ok::<ValueView, Error>(
                ValueView::String(text),
            ),
            Err(error) => <Value as ReadableWithIndex>::spec_read(column) == Err::<ValueView, Error>(
                error,
            ),
        },
        column.kind == Type::String && column.text is Some ==> <Value as ReadableWithIndex>::spec_read(
            column,
        ) == Ok::<ValueView, Error>(ValueView::String(column.text->Some_0)),
        column.kind == Type::Null ==> <Value as ReadableWithIndex>::spec_read(column) == Ok::<
            ValueView,
            Error,
        >(ValueView::Null),
{
}

/// Reading an optional value gives nothing exactly for a null column, and otherwise what reading
/// the inner type gives.
pub proof fn law_option_read<R: ReadableWithIndex>(column: ColumnView)
    ensures
        (<Option<R> as ReadableWithIndex>::spec_read(column) == Ok::<Option<R::Content>, Error>(None))
            <==> column.kind == Type::Null,
        column.kind != Type::Null ==> match R::spec_read(column) {
            Ok(content) => <Option<R> as ReadableWithIndex>::spec_read(column) == Ok::<
                Option<R::Content>,
                Error,
            >(Some(content)),
            Err(error) => <Option<R> as ReadableWithIndex>::spec_read(column) == Err::<
                Option<R::Content>,
                Error,
            >(error),
        },
{
}

/// Without a current row (before the first step, after the last, after a reset) every column
/// is null: a value reads as null and an optional one as nothing.
pub proof fn law_no_row_reads_null<R: ReadableWithIndex>(statement: StatementView, position: int)
    requires
        statement.row is None,
    ensures
        statement.column(position) == Column::spec_null(),
        <Value as ReadableWithIndex>::spec_read(statement.column(position)) == Ok::<ValueView, Error>(
            ValueView::Null,
        ),
        <Option<R> as ReadableWithIndex>::spec_read(statement.column(position)) == Ok::<
            Option<R::Content>,
            Error,
        >(None),
{
}

/// A reset keeps the bindings and the columns, drops the row, and makes the statement ready to
/// be bound again.
pub proof fn law_reset_keeps_bindings(statement: StatementView, index: i32, value: ValueView)
    requires
        statement.wf(),
    ensures
        statement.reset().parameters == statement.parameters,
        statement.reset().parameter_names == statement.parameter_names,
        statement.reset().column_names == statement.column_names,
        statement.reset().row is None,
        statement.reset().wf(),
        (1 <= index <= statement.parameters.len() && value.byte_length() <= statement.length_limit)
            ==> statement.reset().bind(index, value).1 is Ok,
{
}

/// A step keeps the bindings, and a statement that has been stepped refuses binds until it is
/// reset.
pub proof fn law_step_blocks_binding(
    statement: StatementView,
    row: Option<Seq<ColumnView>>,
    index: i32,
    value: ValueView,
)
    ensures
        statement.advance(row).parameters == statement.parameters,
        statement.advance(row).bind(index, value) == (statement.advance(row), Err::<(), Error>(Error::Misuse)),
{
}

} // verus!
