use crate::database_providers::sqlite::values::BoundValue;
use crate::database_providers::sqlite::values::MAX_NAME_BYTES;
use crate::database_providers::sqlite::values::Stored;
use crate::database_providers::sqlite::values::StoredValue;
use crate::errors::Error;
use std::rc::Rc;
use vstd::prelude::*;

verus! {

/// `sqlite::Connection`, an open database. Nothing of its state is modelled.
#[verifier::external_type_specification]
#[verifier::external_body]
pub struct ExConnection(::sqlite::Connection);

/// `sqlite::Statement`, a prepared statement. Nothing of its state is
/// modelled.
#[verifier::external_type_specification]
#[verifier::external_body]
pub struct ExStatement<'l>(::sqlite::Statement<'l>);

/// Holds a `sqlite::Cursor`, the rows of a prepared statement, as the
/// iterator that it is. The cursor is boxed so that its type names only how
/// long the statement stays borrowed, and it is kept behind a struct of this
/// crate so that the verifier reads neither its `Iterator` impl nor the
/// types which that impl names. Nothing of its state is modelled.
#[verifier::external_body]
pub(crate) struct RowCursor<'m> {
    rows: Box<dyn Iterator<Item = ::sqlite::Result<::sqlite::Row>> + 'm>,
}

/// `sqlite::Value`, a value in one of the engine's storage kinds.
#[verifier::external_type_specification]
#[verifier::external_body]
pub struct ExEngineValue(::sqlite::Value);

/// What a `sqlite::Value` holds, in the crate's own terms: the variant and
/// its payload, a float as its bit pattern.
pub uninterp spec fn engine_stored(value: ::sqlite::Value) -> Stored;

/// The target that a `sqlite::Connection` was opened on.
pub uninterp spec fn connection_target(connection: ::sqlite::Connection) -> Seq<char>;

/// The text that a `sqlite::Statement` was prepared from.
pub uninterp spec fn statement_text(statement: ::sqlite::Statement<'_>) -> Seq<char>;

/// What the engine holds for those parameters of a `sqlite::Statement`
/// that are named with a colon and to which a value was bound.
pub uninterp spec fn statement_bound(statement: ::sqlite::Statement<'_>) -> Map<
    Seq<char>,
    Stored,
>;

/// The names of those parameters of a `sqlite::Statement` that are named
/// with a colon, fixed when it was prepared.
pub uninterp spec fn statement_parameters(statement: ::sqlite::Statement<'_>) -> Set<Seq<char>>;

/// How often the engine was asked to advance a `sqlite::Statement`, by
/// `sqlite::Statement::next` on the statement itself.
pub uninterp spec fn statement_steps(statement: ::sqlite::Statement<'_>) -> nat;

/// The names of the columns of the rows that a `sqlite::Statement` gives,
/// fixed when it was prepared.
pub uninterp spec fn statement_columns(statement: ::sqlite::Statement<'_>) -> Seq<Seq<char>>;

/// How often a cursor was asked for its next row.
pub uninterp spec fn cursor_asked(cursor: RowCursor<'_>) -> nat;

/// How often the statement of a cursor had been advanced when the cursor
/// was opened.
pub uninterp spec fn cursor_opened_at(cursor: RowCursor<'_>) -> nat;

/// The number of values in every row that a cursor yields.
pub uninterp spec fn cursor_width(cursor: RowCursor<'_>) -> nat;

/// Calls `Rc::clone`, which hands back a second pointer to the same
/// allocation: both point to the same value.
#[verifier::external_body]
pub(crate) fn share<T>(pointer: &Rc<T>) -> (res: Rc<T>)
    ensures
        res == *pointer,
{
    Rc::clone(pointer)
}

/// Calls `sqlite::open`. Claimed: a connection that comes back was opened on
/// the target handed over, and a failure is the engine's own, handed on with
/// its code and message.
#[verifier::external_body]
pub(crate) fn open(path: &str) -> (res: Result<::sqlite::Connection, Error>)
    ensures
        res matches Ok(connection) ==> connection_target(connection) == path@,
        res matches Err(error) ==> error is SqliteError,
{
    match ::sqlite::open(path) {
        Ok(connection) => Ok(connection),
        Err(error) => Err(Error::SqliteError { code: error.code, message: error.message }),
    }
}

/// Calls `sqlite::Connection::prepare`. Claimed: a statement that comes back
/// was prepared from the text handed over, no value is bound to it and it
/// was not advanced; a failure is the engine's own, handed on with its code
/// and message.
#[verifier::external_body]
pub(crate) fn prepare<'l>(connection: &'l ::sqlite::Connection, query_text: &str) -> (res: Result<
    ::sqlite::Statement<'l>,
    Error,
>)
    ensures
        res matches Ok(statement) ==> {
            &&& statement_text(statement) == query_text@
            &&& statement_bound(statement) == Map::<Seq<char>, Stored>::empty()
            &&& statement_steps(statement) == 0
        },
        res matches Err(error) ==> error is SqliteError,
{
    match connection.prepare(query_text) {
        Ok(statement) => Ok(statement),
        Err(error) => Err(Error::SqliteError { code: error.code, message: error.message }),
    }
}

/// Turns a value to bind into the `sqlite::Value` of the same storage kind
/// and the same payload.
#[verifier::external_body]
pub(crate) fn engine_value(value: BoundValue) -> (res: ::sqlite::Value)
    ensures
        engine_stored(res) == value@,
{
    match value {
        BoundValue::Integer(number) => ::sqlite::Value::Integer(number),
        BoundValue::Text(text) => ::sqlite::Value::String(text),
        BoundValue::Binary(bytes) => ::sqlite::Value::Binary(bytes),
    }
}

/// Calls `sqlite::Statement::bind` with the name of a parameter and a value.
/// The engine is told the length of text and bytes as a 32-bit integer, and
/// it measures a name in 30 bits, so a longer value and a longer name are
/// kept out. Claimed:
/// - where the statement has no parameter of the name, the call fails
///   before the engine is asked to bind, and what is bound stays;
/// - on success the statement has the parameter, and it holds the value,
///   NULL in place of a float that is no number;
/// - whatever the outcome, every other parameter holds what it held, and
///   the statement keeps its parameters, text and columns and is not
///   advanced;
/// - on another failure nothing is claimed of the parameter itself: the
///   engine may have cleared it;
/// - a failure is the engine's own, handed on with its code and message;
/// - the call does not panic.
#[verifier::external_body]
pub(crate) fn bind(
    statement: &mut ::sqlite::Statement<'_>,
    parameter: &str,
    value: &::sqlite::Value,
) -> (res: Result<(), Error>)
    requires
        parameter@.len() > 0 && parameter@[0] == ':',
        vstd::utf8::encode_utf8(parameter@).len() < MAX_NAME_BYTES,
        engine_stored(*value).fits_parameter(),
    ensures
        !statement_parameters(*old(statement)).contains(parameter@) ==> {
            &&& res is Err
            &&& statement_bound(*final(statement)) == statement_bound(*old(statement))
        },
        res is Ok ==> statement_bound(*final(statement)) == statement_bound(
            *old(statement),
        ).insert(parameter@, engine_stored(*value).as_bound()),
        statement_bound(*final(statement)).remove(parameter@) == statement_bound(
            *old(statement),
        ).remove(parameter@),
        statement_parameters(*final(statement)) == statement_parameters(*old(statement)),
        statement_steps(*final(statement)) == statement_steps(*old(statement)),
        statement_text(*final(statement)) == statement_text(*old(statement)),
        statement_columns(*final(statement)) == statement_columns(*old(statement)),
        res matches Err(error) ==> error is SqliteError,
    no_unwind
{
    match statement.bind((parameter, value)) {
        Ok(()) => Ok(()),
        Err(error) => Err(Error::SqliteError { code: error.code, message: error.message }),
    }
}

/// Calls `sqlite::Statement::next` and drops the state it reports. Claimed:
/// the engine was asked to advance the statement once, whatever came of it;
/// what is bound, the parameters, the text and the columns stay; a failure
/// is the engine's own, handed on with its code and message. The call does
/// not panic.
#[verifier::external_body]
pub(crate) fn step(statement: &mut ::sqlite::Statement<'_>) -> (res: Result<(), Error>)
    ensures
        statement_steps(*final(statement)) == statement_steps(*old(statement)) + 1,
        statement_bound(*final(statement)) == statement_bound(*old(statement)),
        statement_parameters(*final(statement)) == statement_parameters(*old(statement)),
        statement_text(*final(statement)) == statement_text(*old(statement)),
        statement_columns(*final(statement)) == statement_columns(*old(statement)),
        res matches Err(error) ==> error is SqliteError,
    no_unwind
{
    match statement.next() {
        Ok(_) => Ok(()),
        Err(error) => Err(Error::SqliteError { code: error.code, message: error.message }),
    }
}

/// Calls `sqlite::Connection::change_count`. Nothing is promised of the
/// number.
#[verifier::external_body]
pub(crate) fn change_count(connection: &::sqlite::Connection) -> (res: usize) {
    connection.change_count()
}

/// Calls `sqlite::Statement::column_names` and copies the names.
#[verifier::external_body]
pub(crate) fn column_names(statement: &::sqlite::Statement<'_>) -> (res: Vec<String>)
    ensures
        res.deep_view() == statement_columns(*statement),
{
    statement.column_names().to_vec()
}

/// Calls `sqlite::Statement::iter`. Claimed: opening the cursor does not
/// advance the statement, so the cursor stands where the statement stood;
/// the cursor has not been asked for a row, and its rows have a value for
/// each column of the statement; and once it is let go, the statement holds
/// what was bound to it, has its parameters, its text and its columns, and
/// was advanced no less often than before: a cursor advances its statement
/// and reads it, and does nothing else to it. The call does not panic.
#[verifier::external_body]
pub(crate) fn open_cursor<'l, 'm>(statement: &'m mut ::sqlite::Statement<'l>) -> (res: RowCursor<
    'm,
>)
    ensures
        cursor_asked(res) == 0,
        cursor_opened_at(res) == statement_steps(*old(statement)),
        cursor_width(res) == statement_columns(*old(statement)).len(),
        statement_bound(*final(statement)) == statement_bound(*old(statement)),
        statement_parameters(*final(statement)) == statement_parameters(*old(statement)),
        statement_text(*final(statement)) == statement_text(*old(statement)),
        statement_columns(*final(statement)) == statement_columns(*old(statement)),
        statement_steps(*final(statement)) >= statement_steps(*old(statement)),
    no_unwind
{
    RowCursor { rows: Box::new(statement.iter()) }
}

/// Calls `Iterator::next` of `sqlite::Cursor` and takes the values out of
/// the row it yields. Claimed: the cursor was asked once more and stands
/// where it was opened; a row has as many values as the cursor is wide; a
/// failure is the engine's own, handed on with its code and message. Of
/// what the values are nothing is claimed. The call does not panic.
#[verifier::external_body]
pub(crate) fn advance(cursor: &mut RowCursor<'_>) -> (res: Option<
    Result<Vec<::sqlite::Value>, Error>,
>)
    ensures
        cursor_asked(*final(cursor)) == cursor_asked(*old(cursor)) + 1,
        cursor_opened_at(*final(cursor)) == cursor_opened_at(*old(cursor)),
        cursor_width(*final(cursor)) == cursor_width(*old(cursor)),
        res matches Some(Ok(values)) ==> values.len() == cursor_width(*old(cursor)),
        res matches Some(Err(error)) ==> error is SqliteError,
    no_unwind
{
    match cursor.rows.next() {
        Some(Ok(row)) => Some(Ok(Vec::from(row))),
        Some(Err(error)) => Some(
            Err(Error::SqliteError { code: error.code, message: error.message }),
        ),
        None => None,
    }
}

/// Reads the bit pattern of the number in a `sqlite::Value::Float`; `None`
/// for the other variants.
#[verifier::external_body]
pub(crate) fn float_bits(value: &::sqlite::Value) -> (res: Option<u64>)
    ensures
        res == match engine_stored(*value) {
            Stored::Float(bits) => Some(bits),
            _ => None,
        },
{
    match value {
        ::sqlite::Value::Float(number) => Some(number.to_bits()),
        _ => None,
    }
}

/// Tells the variants of `sqlite::Value` apart and moves what each holds
/// into the crate's own form; a float is kept as its bit pattern.
#[verifier::external_body]
pub(crate) fn plain_value(value: ::sqlite::Value) -> (res: StoredValue)
    ensures
        res@ == engine_stored(value),
{
    match value {
        ::sqlite::Value::Binary(bytes) => StoredValue::Binary(bytes),
        ::sqlite::Value::Float(number) => StoredValue::Float(number.to_bits()),
        ::sqlite::Value::Integer(number) => StoredValue::Integer(number),
        ::sqlite::Value::String(text) => StoredValue::Text(text),
        ::sqlite::Value::Null => StoredValue::Null,
    }
}

} // verus!
