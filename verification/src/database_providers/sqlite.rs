//! The SQLite backend.

mod encoding;
mod engine;
mod laws;
mod rows;
mod values;

pub use encoding::decimal_digits;
pub use encoding::decimal_text;
pub use encoding::default_encoding;
pub use encoding::digit_char;
pub use encoding::encode_value;
pub use encoding::encoded;
pub use encoding::decimal_digits_are_few;
pub use encoding::decimal_digits_of_a_number_are_few;
pub use encoding::is_too_long_a_name;
pub use encoding::is_whole_number;
pub use encoding::is_written_by_default;
pub use encoding::power_of_ten;
pub use encoding::parameter_name;
pub use encoding::parameter_name_of;
pub use encoding::Encoding;
pub use encoding::EncodingView;
pub use engine::engine_stored;
pub use laws::boolean_round_trip;
pub use laws::date_round_trip;
pub use laws::date_time_round_trip;
pub use laws::decimal_digits_write_the_number;
pub use laws::decimal_value;
pub use laws::digit_value;
pub use laws::encoding_has_three_kinds;
pub use laws::extraction_has_four_kinds;
pub use laws::integer_round_trip;
pub use laws::last_column_of_a_name_answers;
pub use laws::long_name_has_a_long_identifier;
pub use laws::parameter_names_are_distinct;
pub use laws::taken_back;
pub use laws::text_and_bytes_round_trip;
pub use laws::unsigned_number_round_trip;
pub use laws::value_is_bound_as_it_is;
pub use laws::whole_number_is_always_accepted;
pub use rows::column_position;
pub use rows::decode_value;
pub use rows::decoded;
pub use rows::is_missing_feature;
pub use rows::missing_feature;
pub use rows::missing_feature_message;
pub use rows::RowView;
pub use rows::SqliteRow;
pub use values::is_not_a_number;
pub use values::BoundValue;
pub use values::Stored;
pub use values::StoredValue;
pub use values::MAX_NAME_BYTES;
pub use values::MAX_PARAMETER_BYTES;

use crate::database_providers::sqlite::engine::connection_target;
use crate::database_providers::sqlite::engine::cursor_asked;
use crate::database_providers::sqlite::engine::cursor_opened_at;
use crate::database_providers::sqlite::engine::cursor_width;
use crate::database_providers::sqlite::engine::statement_bound;
use crate::database_providers::sqlite::engine::statement_columns;
use crate::database_providers::sqlite::engine::statement_parameters;
use crate::database_providers::sqlite::engine::statement_steps;
use crate::database_providers::sqlite::engine::statement_text;
use crate::database_providers::sqlite::engine::RowCursor;
use crate::domain::ValueUnion;
use crate::errors::Error;
use crate::errors::Result;
use crate::query_execution::is_identifier;
use crate::query_execution::is_valid_identifier;
use crate::query_execution::ExecuteQuery;
use crate::query_execution::GetQueryResultType;
use crate::query_execution::InjectFeatures;
use crate::query_execution::IterateRows;
use crate::query_execution::QueryResultType;
use crate::query_execution::TakeFeatures;
use std::marker::PhantomData;
use std::rc::Rc;
use vstd::prelude::*;

verus! {

/// An open database together with the encoding its queries use.
pub struct SqliteConnection<'connection> {
    sqlite_connection: ::sqlite::Connection,
    encoding: Encoding,
    phantom: PhantomData<&'connection ()>,
}

/// A prepared statement, bound to one connection and one result type for its
/// whole life.
pub struct SqliteQuery<'connection> {
    connection: &'connection SqliteConnection<'connection>,
    statement: ::sqlite::Statement<'connection>,
    result_type: QueryResultType,
    columns: Rc<Vec<String>>,
}

/// The rows of a query, produced one at a time. The query stays borrowed
/// for as long as its rows are.
pub struct SqliteRows<'query> {
    columns: Rc<Vec<String>>,
    cursor: RowCursor<'query>,
}

impl<'connection> SqliteConnection<'connection> {
    /// The encoding that queries on this connection use.
    pub closed spec fn spec_encoding(&self) -> EncodingView {
        self.encoding@
    }

    /// The target that the engine was asked to open.
    pub closed spec fn target(&self) -> Seq<char> {
        connection_target(self.sqlite_connection)
    }

    /// Opens a database in memory, with the default encoding.
    pub fn connect_memory() -> (res: Result<Self>)
        ensures
            res matches Ok(connection) ==> connection.spec_encoding() == default_encoding()
                && connection.target() == ":memory:"@,
            res matches Err(error) ==> error is SqliteError,
    {
        Self::connect_memory_with(Encoding::default())
    }

    /// Opens a database in memory, with the given encoding.
    pub fn connect_memory_with(encoding: Encoding) -> (res: Result<Self>)
        ensures
            res matches Ok(connection) ==> connection.spec_encoding() == encoding@
                && connection.target() == ":memory:"@,
            res matches Err(error) ==> error is SqliteError,
    {
        match engine::open(":memory:") {
            Ok(sqlite_connection) => Ok(
                SqliteConnection { sqlite_connection, encoding, phantom: PhantomData },
            ),
            Err(error) => Err(error),
        }
    }

    /// The encoding that queries on this connection use.
    pub fn encoding(&self) -> (res: &Encoding)
        ensures
            res@ == self.spec_encoding(),
    {
        &self.encoding
    }
}

impl<'connection> SqliteQuery<'connection> {
    #[verifier::type_invariant]
    spec fn knows_its_columns(self) -> bool {
        self.columns.deep_view() == statement_columns(self.statement)
    }

    /// The encoding of the connection that the query belongs to.
    pub closed spec fn encoding(&self) -> EncodingView {
        self.connection.spec_encoding()
    }

    /// The text that the statement was prepared from.
    pub closed spec fn text(&self) -> Seq<char> {
        statement_text(self.statement)
    }

    /// What the engine holds for each parameter of the statement to which a
    /// value was bound.
    pub closed spec fn bindings(&self) -> Map<Seq<char>, Stored> {
        statement_bound(self.statement)
    }

    /// The names of the columns of the rows that the statement gives.
    pub closed spec fn columns(&self) -> Seq<Seq<char>> {
        statement_columns(self.statement)
    }

    /// The names of those parameters of the statement that are named with a
    /// colon.
    pub closed spec fn parameters(&self) -> Set<Seq<char>> {
        statement_parameters(self.statement)
    }

    /// How often the engine was asked to advance the statement.
    pub closed spec fn advances(&self) -> nat {
        statement_steps(self.statement)
    }

    /// Whether this query has the encoding, the text, the parameters, the
    /// bindings and the columns that `before` has.
    pub open spec fn keeps(&self, before: &Self) -> bool {
        &&& self.encoding() == before.encoding()
        &&& self.text() == before.text()
        &&& self.parameters() == before.parameters()
        &&& self.bindings() == before.bindings()
        &&& self.columns() == before.columns()
    }

    /// Whether this query is as `before` was, but for what the parameter
    /// `parameter` holds: same encoding, text, parameters, columns and
    /// advances, and every other parameter holding what it held.
    pub open spec fn differs_in_one_binding(&self, before: &Self, parameter: Seq<char>) -> bool {
        &&& self.encoding() == before.encoding()
        &&& self.text() == before.text()
        &&& self.parameters() == before.parameters()
        &&& self.columns() == before.columns()
        &&& self.advances() == before.advances()
        &&& self.bindings().remove(parameter) == before.bindings().remove(parameter)
    }

    /// The names of the columns of the rows that the statement gives.
    pub fn column_names(&self) -> (res: &Vec<String>)
        ensures
            res.deep_view() == self.columns(),
    {
        proof {
            use_type_invariant(self);
        }
        &self.columns
    }

    fn new_with_result_type(
        connection: &'connection SqliteConnection,
        query_text: &str,
        result_type: QueryResultType,
    ) -> (res: Result<Self>)
        ensures
            res matches Ok(query) ==> query.is_new(connection, query_text@, result_type),
            res matches Err(error) ==> error is SqliteError,
    {
        match engine::prepare(&connection.sqlite_connection, query_text) {
            Ok(statement) => {
                let columns = Rc::new(engine::column_names(&statement));
                Ok(SqliteQuery { connection, statement, result_type, columns })
            },
            Err(error) => Err(error),
        }
    }

    /// Whether this query is as it comes out of preparing `text` on
    /// `connection` for `result_type`: nothing is bound and the statement
    /// was not advanced.
    pub open spec fn is_new(
        &self,
        connection: &SqliteConnection,
        text: Seq<char>,
        result_type: QueryResultType,
    ) -> bool {
        &&& self.spec_query_result_type() == result_type
        &&& self.encoding() == connection.spec_encoding()
        &&& self.text() == text
        &&& self.bindings() == Map::<Seq<char>, Stored>::empty()
        &&& self.advances() == 0
    }

    /// Prepares a statement whose execution reports nothing.
    pub fn new_without_results(connection: &'connection SqliteConnection, query_text: &str) -> (res:
        Result<Self>)
        ensures
            res matches Ok(query) ==> query.is_new(
                connection,
                query_text@,
                QueryResultType::NoResult,
            ),
            res matches Err(error) ==> error is SqliteError,
    {
        Self::new_with_result_type(connection, query_text, QueryResultType::NoResult)
    }

    /// Prepares a statement whose execution reports a number of changed rows.
    pub fn new_with_change_count(
        connection: &'connection SqliteConnection,
        query_text: &str,
    ) -> (res: Result<Self>)
        ensures
            res matches Ok(query) ==> query.is_new(
                connection,
                query_text@,
                QueryResultType::ChangeCount,
            ),
            res matches Err(error) ==> error is SqliteError,
    {
        Self::new_with_result_type(connection, query_text, QueryResultType::ChangeCount)
    }

    /// Prepares a statement whose execution hands back rows.
    pub fn new_with_iterator(connection: &'connection SqliteConnection, query_text: &str) -> (res:
        Result<Self>)
        ensures
            res matches Ok(query) ==> query.is_new(
                connection,
                query_text@,
                QueryResultType::Iterator,
            ),
            res matches Err(error) ==> error is SqliteError,
    {
        Self::new_with_result_type(connection, query_text, QueryResultType::Iterator)
    }

    /// Whether binding under `identifier` went as it goes for every kind of
    /// value: a name that is too long for the engine, or that the statement
    /// has no parameter for, is a failure that leaves what is bound; a
    /// failure is a backend failure.
    pub open spec fn bound_under(
        &self,
        before: &Self,
        identifier: Seq<char>,
        outcome: Result<()>,
    ) -> bool {
        &&& self.spec_query_result_type() == before.spec_query_result_type()
        &&& self.differs_in_one_binding(before, parameter_name_of(identifier))
        &&& outcome matches Err(error) ==> error is SqliteError
        &&& is_too_long_a_name(identifier) ==> (outcome matches Err(error) && is_missing_feature(
            error,
            parameter_name_of(identifier),
        ))
        &&& (is_too_long_a_name(identifier) || !before.parameters().contains(
            parameter_name_of(identifier),
        )) ==> (outcome is Err && self.bindings() == before.bindings())
    }

    /// Hands a value to the engine for the parameter that `identifier`
    /// names, unless the name is too long for the engine to tell it from a
    /// shorter one: that is answered here, with the failure that says that
    /// the statement has no such parameter.
    fn bind_under(&mut self, identifier: &String, value: &::sqlite::Value) -> (res: Result<()>)
        requires
            is_identifier(identifier@),
            engine_stored(*value).fits_parameter(),
        ensures
            final(self).bound_under(old(self), identifier@, res),
            is_too_long_a_name(identifier@) ==> *final(self) == *old(self),
            res is Ok ==> final(self).bindings() == old(self).bindings().insert(
                parameter_name_of(identifier@),
                engine_stored(*value).as_bound(),
            ),
    {
        let parameter = parameter_name(identifier.as_str());
        if parameter.as_str().as_bytes().len() >= MAX_NAME_BYTES {
            return Err(missing_feature(parameter.as_str()));
        }
        proof {
            use_type_invariant(&*self);
        }
        engine::bind(&mut self.statement, parameter.as_str(), value)
    }

    /// Binds a floating-point number, handed over as the engine's own
    /// `sqlite::Value::Float`, to the parameter that `identifier` names.
    /// `None`, with the query untouched, says that the name is an identifier
    /// and the value is of another kind: those go through `inject_feature`.
    ///
    /// On success the parameter holds the number, or NULL where the bit
    /// pattern stands for no number. Where the statement has no such
    /// parameter, the call fails and what is bound stays. On another failure
    /// of the engine every other parameter holds what it held; the engine
    /// may have cleared this one.
    pub fn inject_engine_float(&mut self, identifier: &String, value: &::sqlite::Value) -> (res:
        Option<Result<()>>)
        ensures
            !is_identifier(identifier@) ==> {
                &&& res == Some(
                    Err::<(), Error>(Error::InvalidFeatureName { feature_name: *identifier }),
                )
                &&& *final(self) == *old(self)
            },
            res is None <==> is_identifier(identifier@) && !(engine_stored(*value) is Float),
            res is None ==> *final(self) == *old(self),
            is_identifier(identifier@) ==> (res matches Some(outcome) ==> final(self).bound_under(
                old(self),
                identifier@,
                outcome,
            )),
            is_identifier(identifier@) && is_too_long_a_name(identifier@) ==> *final(self) == *old(
                self,
            ),
            res matches Some(Ok(_)) ==> final(self).bindings() == old(self).bindings().insert(
                parameter_name_of(identifier@),
                engine_stored(*value).as_bound(),
            ),
    {
        if !is_valid_identifier(identifier.as_str()) {
            return Some(Err(Error::InvalidFeatureName { feature_name: identifier.clone() }));
        }
        match engine::float_bits(value) {
            Some(_) => Some(self.bind_under(identifier, value)),
            None => None,
        }
    }
}

impl<'connection> GetQueryResultType for SqliteQuery<'connection> {
    closed spec fn spec_query_result_type(&self) -> QueryResultType {
        self.result_type
    }

    fn query_result_type(&self) -> (res: QueryResultType) {
        self.result_type
    }
}

impl<'connection> InjectFeatures for SqliteQuery<'connection> {
    type Identifier = String;

    /// A value is accepted where it has an encoding and that encoding is
    /// short enough for the engine.
    open spec fn accepts(&self, value: &ValueUnion) -> bool {
        encoded(value@, self.encoding()) matches Some(stored) && stored.fits_parameter()
    }

    /// A whole number is always accepted, and a date or a moment wherever
    /// the connection has the default pattern for it.
    fn can_inject(&self, value: &ValueUnion) -> (res: bool)
        ensures
            is_written_by_default(value@, self.encoding()) || is_whole_number(value@) ==> res,
    {
        match encode_value(value, &self.connection.encoding) {
            Some(bound) => bound.fits_parameter(),
            None => false,
        }
    }

    /// On success the parameter holds the encoded value. Where the name is
    /// too long for the engine, or the statement has no such parameter, the
    /// call fails and what is bound stays. On another failure of the engine
    /// every other parameter holds what it held; the engine may have cleared
    /// this one.
    fn inject_feature(&mut self, identifier: &String, value: &ValueUnion) -> (res: Result<()>)
        ensures
            !is_identifier(identifier@) ==> res == Err::<(), Error>(
                Error::InvalidFeatureName { feature_name: *identifier },
            ),
            is_identifier(identifier@) ==> final(self).bound_under(old(self), identifier@, res),
            is_identifier(identifier@) && is_too_long_a_name(identifier@) ==> *final(self) == *old(
                self,
            ),
            res is Ok ==> final(self).bindings() == old(self).bindings().insert(
                parameter_name_of(identifier@),
                encoded(value@, old(self).encoding())->0,
            ),
    {
        if !is_valid_identifier(identifier.as_str()) {
            return Err(Error::InvalidFeatureName { feature_name: identifier.clone() });
        }
        match encode_value(value, &self.connection.encoding) {
            Some(bound) => {
                proof {
                    encoding_has_three_kinds(value@, self.encoding());
                }
                let engine_value = engine::engine_value(bound);
                self.bind_under(identifier, &engine_value)
            },
            None => vstd::pervasive::unreached(),
        }
    }

    fn try_inject_feature(&mut self, identifier: &String, value: &ValueUnion) -> (res: Option<
        Result<()>,
    >)
        ensures
            !is_identifier(identifier@) ==> res == Some(
                Err::<(), Error>(Error::InvalidFeatureName { feature_name: *identifier }),
            ),
            is_written_by_default(value@, old(self).encoding()) || is_whole_number(value@)
                ==> res is Some,
            is_identifier(identifier@) ==> (res matches Some(outcome) ==> final(self).bound_under(
                old(self),
                identifier@,
                outcome,
            )),
            is_identifier(identifier@) && is_too_long_a_name(identifier@) ==> *final(self) == *old(
                self,
            ),
            res matches Some(Ok(_)) ==> final(self).bindings() == old(self).bindings().insert(
                parameter_name_of(identifier@),
                encoded(value@, old(self).encoding())->0,
            ),
    {
        if !is_valid_identifier(identifier.as_str()) || self.can_inject(value) {
            Some(self.inject_feature(identifier, value))
        } else {
            None
        }
    }
}

impl TakeFeatures for Result<SqliteRow> {
    type Identifier = String;

    /// A row that was read answers for the names of its columns; a row that
    /// stands for a failure answers for every name, with that failure.
    open spec fn offers(&self, identifier: &String) -> bool {
        self matches Ok(row) ==> row@.stored(identifier@) is Some
    }

    fn has_feature(&self, identifier: &String) -> (res: bool) {
        match self {
            Ok(row) => row.has_feature(identifier),
            Err(_) => true,
        }
    }

    /// A row that was read gives up the value under the last column of the
    /// name, decoded by its storage kind, and answers with the failure of a
    /// missing feature where no column has the name. A row that stands for
    /// a failure gives up that failure.
    fn take_feature(&self, identifier: &String) -> (res: Result<Option<ValueUnion<'_>>>)
        ensures
            !is_identifier(identifier@) ==> res == Err::<Option<ValueUnion<'_>>, Error>(
                Error::InvalidFeatureName { feature_name: *identifier },
            ),
            is_identifier(identifier@) ==> match *self {
                Ok(row) => match row@.stored(identifier@) {
                    Some(stored) => match res {
                        Ok(Some(value)) => decoded(stored) == Some(value@),
                        Ok(None) => decoded(stored) is None,
                        Err(_) => false,
                    },
                    None => res matches Err(error) && is_missing_feature(error, identifier@),
                },
                Err(failure) => res == Err::<Option<ValueUnion<'_>>, Error>(failure),
            },
    {
        if !is_valid_identifier(identifier.as_str()) {
            return Err(Error::InvalidFeatureName { feature_name: identifier.clone() });
        }
        match self {
            Ok(row) => row.feature(identifier),
            Err(failure) => Err(failure.duplicate()),
        }
    }
}

impl<'query> IterateRows for SqliteRows<'query> {
    type Row = Result<SqliteRow>;

    /// Asks the engine for one row more. Whether there is one, what it
    /// holds and whether reading it fails is the engine's to say; a row that
    /// comes has the columns of this sequence.
    fn next_row(&mut self) -> (res: Option<Result<SqliteRow>>)
        ensures
            final(self).asked() == old(self).asked() + 1,
            final(self).opened_at() == old(self).opened_at(),
            final(self).spec_columns() == old(self).spec_columns(),
            res matches Some(Ok(row)) ==> row@.columns == old(self).spec_columns(),
            res matches Some(Err(error)) ==> error is SqliteError,
    {
        proof {
            use_type_invariant(&*self);
        }
        let yielded = engine::advance(&mut self.cursor);
        row_from(engine::share(&self.columns), yielded)
    }
}

/// What becomes of what a cursor yields: a row of engine values becomes a
/// row under the given columns, with the same values in the crate's own
/// form and in the same order; a failure stays the failure it is; and the
/// end of the rows stays the end.
pub fn row_from(columns: Rc<Vec<String>>, yielded: Option<Result<Vec<::sqlite::Value>>>) -> (res:
    Option<Result<SqliteRow>>)
    requires
        yielded matches Some(Ok(values)) ==> values.len() == columns.len(),
    ensures
        match yielded {
            Some(Ok(values)) => {
                &&& res matches Some(Ok(row))
                &&& row@.columns == columns.deep_view()
                &&& row@.values.len() == values.len()
                &&& forall|i: int|
                    0 <= i < values.len() ==> #[trigger] row@.values[i] == engine_stored(
                        values[i],
                    )
            },
            Some(Err(error)) => res == Some(Err::<SqliteRow, Error>(error)),
            None => res is None,
        },
{
    match yielded {
        Some(Ok(values)) => {
            let plain = plain_values(values);
            assert forall|i: int| 0 <= i < plain.len() implies #[trigger] plain.deep_view()[i]
                == plain[i]@ by {}
            Some(Ok(SqliteRow::with_shared_columns(columns, plain)))
        },
        Some(Err(error)) => Some(Err(error)),
        None => None,
    }
}

impl<'query> SqliteRows<'query> {
    #[verifier::type_invariant]
    spec fn as_wide_as_its_columns(self) -> bool {
        self.columns.len() == cursor_width(self.cursor)
    }

    /// The names of the columns that every row of this sequence has.
    pub closed spec fn spec_columns(&self) -> Seq<Seq<char>> {
        self.columns.deep_view()
    }

    /// How often the engine was asked for the next row of this sequence.
    pub closed spec fn asked(&self) -> nat {
        cursor_asked(self.cursor)
    }

    /// How often the statement had been advanced when this sequence was
    /// handed back.
    pub closed spec fn opened_at(&self) -> nat {
        cursor_opened_at(self.cursor)
    }
}

/// Moves a row of engine values into the crate's own form, one by one and in
/// order.
pub fn plain_values(values: Vec<::sqlite::Value>) -> (res: Vec<StoredValue>)
    ensures
        res.len() == values.len(),
        forall|i: int|
            0 <= i < values.len() ==> (#[trigger] res[i])@ == engine_stored(values[i]),
{
    let ghost given = values@;
    let mut reversed: Vec<StoredValue> = Vec::new();
    let mut rest = values;
    while rest.len() > 0
        invariant
            reversed.len() + rest.len() == given.len(),
            rest@ == given.subrange(0, rest.len() as int),
            forall|i: int|
                0 <= i < reversed.len() ==> (#[trigger] reversed[i])@ == engine_stored(
                    given[given.len() - 1 - i],
                ),
        decreases rest.len(),
    {
        match rest.pop() {
            Some(value) => reversed.push(engine::plain_value(value)),
            None => {},
        }
    }
    let ghost turned = reversed@;
    let mut plain: Vec<StoredValue> = Vec::new();
    while reversed.len() > 0
        invariant
            plain.len() + reversed.len() == given.len(),
            turned.len() == given.len(),
            reversed@ == turned.subrange(0, reversed.len() as int),
            forall|i: int|
                0 <= i < turned.len() ==> (#[trigger] turned[i])@ == engine_stored(
                    given[given.len() - 1 - i],
                ),
            forall|i: int|
                0 <= i < plain.len() ==> (#[trigger] plain[i])@ == engine_stored(given[i]),
        decreases reversed.len(),
    {
        match reversed.pop() {
            Some(value) => plain.push(value),
            None => {},
        }
    }
    plain
}

impl<'connection, 'query> ExecuteQuery<'query> for SqliteConnection<'connection> {
    type Query = SqliteQuery<'connection>;

    type Row = Result<SqliteRow>;

    type RowIterator = SqliteRows<'query>;

    /// The statement was asked to advance once, nothing else of the query
    /// changed, and a failure is the engine's own.
    open spec fn ran_without_results(
        &self,
        before: &SqliteQuery<'connection>,
        after: &SqliteQuery<'connection>,
        outcome: Result<()>,
    ) -> bool {
        &&& after.advances() == before.advances() + 1
        &&& after.keeps(before)
        &&& outcome matches Err(error) ==> error is SqliteError
    }

    /// The statement was asked to advance once, nothing else of the query
    /// changed, and a failure is the engine's own.
    open spec fn ran_with_change_count(
        &self,
        before: &SqliteQuery<'connection>,
        after: &SqliteQuery<'connection>,
        outcome: Result<usize>,
    ) -> bool {
        &&& after.advances() == before.advances() + 1
        &&& after.keeps(before)
        &&& outcome matches Err(error) ==> error is SqliteError
    }

    /// The rows are handed back with none of them asked for yet and with the
    /// statement where it stood: it was not advanced. The rows have the
    /// columns of the query. Once they are let go the query is as it was,
    /// but that its statement may have been advanced: by the rows that were
    /// taken, and only by them.
    open spec fn ran_with_iterator(
        &self,
        before: &SqliteQuery<'connection>,
        after: &SqliteQuery<'connection>,
        outcome: Result<SqliteRows<'query>>,
    ) -> bool {
        &&& outcome matches Ok(rows) && rows.spec_columns() == before.columns() && rows.asked()
            == 0 && rows.opened_at() == before.advances()
        &&& after.advances() >= before.advances()
        &&& after.keeps(before)
    }

    /// Asks the engine to advance the statement, once, and reports nothing
    /// but a failure.
    fn execute_without_results(&self, query: &mut SqliteQuery<'connection>) -> (res: Result<()>)
        ensures
            final(query).advances() == old(query).advances() + 1,
            final(query).keeps(old(query)),
            res matches Err(error) ==> error is SqliteError,
    {
        proof {
            use_type_invariant(&*query);
        }
        let outcome = engine::step(&mut query.statement);
        assert(query.spec_query_result_type() == old(query).spec_query_result_type());
        outcome
    }

    /// Asks the engine to advance the statement, once, and then asks this
    /// connection how many rows its last statement changed.
    fn execute_with_change_count(&self, query: &mut SqliteQuery<'connection>) -> (res: Result<
        usize,
    >)
        ensures
            final(query).advances() == old(query).advances() + 1,
            final(query).keeps(old(query)),
            res matches Err(error) ==> error is SqliteError,
    {
        proof {
            use_type_invariant(&*query);
        }
        let outcome = engine::step(&mut query.statement);
        assert(query.spec_query_result_type() == old(query).spec_query_result_type());
        match outcome {
            Ok(()) => Ok(engine::change_count(&self.sqlite_connection)),
            Err(error) => Err(error),
        }
    }

    /// Hands back the rows of the statement, with the columns of the query,
    /// without asking the engine to advance it.
    fn execute_with_iterator(&self, query: &'query mut SqliteQuery<'connection>) -> (res:
        Result<SqliteRows<'query>>)
        ensures
            res matches Ok(rows) && rows.spec_columns() == old(query).columns() && rows.asked()
                == 0 && rows.opened_at() == old(query).advances(),
            final(query).advances() >= old(query).advances(),
            final(query).keeps(old(query)),
    {
        proof {
            use_type_invariant(&*query);
        }
        let columns = engine::share(&query.columns);
        Ok(SqliteRows { columns, cursor: engine::open_cursor(&mut query.statement) })
    }
}

} // verus!
