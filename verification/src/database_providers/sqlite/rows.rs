use crate::database_providers::sqlite::values::Stored;
use crate::database_providers::sqlite::values::StoredValue;
use crate::domain::F64Bits;
use crate::domain::ValueUnion;
use crate::domain::ValueView;
use crate::errors::Error;
use crate::errors::Result;
use std::rc::Rc;
use vstd::prelude::*;
use vstd::string::*;

verus! {

/// The value that a stored value is taken out as, or `None` for NULL. Only
/// four kinds ever come out: bytes, a double-precision number, a 64-bit
/// signed integer, or text.
pub open spec fn decoded(stored: Stored) -> Option<ValueView> {
    match stored {
        Stored::Binary(bytes) => Some(ValueView::Bytestring(bytes)),
        Stored::Float(bits) => Some(ValueView::F64(F64Bits(bits))),
        Stored::Integer(number) => Some(ValueView::I64(number)),
        Stored::Text(text) => Some(ValueView::String(text)),
        Stored::Null => None,
    }
}

/// Takes a stored value out as `decoded` says, borrowing its text or bytes.
pub fn decode_value(stored: &StoredValue) -> (res: Option<ValueUnion<'_>>)
    ensures
        res is Some <==> decoded(stored@) is Some,
        res matches Some(value) ==> decoded(stored@) == Some(value@),
{
    match stored {
        StoredValue::Binary(bytes) => Some(ValueUnion::Bytestring(bytes.as_slice())),
        StoredValue::Float(bits) => Some(ValueUnion::F64(F64Bits(*bits))),
        StoredValue::Integer(number) => Some(ValueUnion::I64(*number)),
        StoredValue::Text(text) => Some(ValueUnion::String(text)),
        StoredValue::Null => None,
    }
}

/// The position of the last column that carries `name`, if any does. Where
/// two columns share a name, the later one answers for it.
pub open spec fn column_position(columns: Seq<Seq<char>>, name: Seq<char>) -> Option<int>
    decreases columns.len(),
{
    if columns.len() == 0 {
        None
    } else if columns.last() == name {
        Some(columns.len() - 1)
    } else {
        column_position(columns.drop_last(), name)
    }
}

/// What a row holds: the names of its columns and the value under each.
pub ghost struct RowView {
    pub columns: Seq<Seq<char>>,
    pub values: Seq<Stored>,
}

impl RowView {
    /// Every column has a value, and there is no value without a column.
    pub open spec fn well_formed(self) -> bool {
        self.columns.len() == self.values.len()
    }

    /// The value stored under `name`, where the row has a column of that
    /// name.
    pub open spec fn stored(self, name: Seq<char>) -> Option<Stored> {
        match column_position(self.columns, name) {
            Some(position) => Some(self.values[position]),
            None => None,
        }
    }
}

/// What the failure says that answers for a name that no column carries.
pub open spec fn missing_feature_message(name: Seq<char>) -> Seq<char> {
    "the index is out of range ("@ + name + ")"@
}

/// Whether `error` is the failure that answers for `name` where no column
/// carries it: a backend failure without a code, saying that the index is
/// out of range and giving the name.
pub open spec fn is_missing_feature(error: Error, name: Seq<char>) -> bool {
    &&& error matches Error::SqliteError { code, message }
    &&& code is None
    &&& message matches Some(text)
    &&& text@ == missing_feature_message(name)
}

/// The failure that answers for `name` where no column carries it.
pub fn missing_feature(name: &str) -> (res: Error)
    ensures
        is_missing_feature(res, name@),
{
    let mut text = String::from_str("the index is out of range (");
    text.append(name);
    text.append(")");
    Error::SqliteError { code: None, message: Some(text) }
}

/// One row of a result, read out of the engine. It has one value for each
/// of its columns.
#[derive(Debug)]
pub struct SqliteRow {
    columns: Rc<Vec<String>>,
    values: Vec<StoredValue>,
}

impl View for SqliteRow {
    type V = RowView;

    closed spec fn view(&self) -> RowView {
        RowView { columns: self.columns.deep_view(), values: self.values.deep_view() }
    }
}

impl SqliteRow {
    #[verifier::type_invariant]
    spec fn one_value_for_each_column(self) -> bool {
        self.columns.len() == self.values.len()
    }

    /// A row with the given column names and the given values, in order;
    /// `None` where there is not one value for each column.
    pub fn new(columns: Vec<String>, values: Vec<StoredValue>) -> (res: Option<SqliteRow>)
        ensures
            res is Some <==> columns.len() == values.len(),
            res matches Some(row) ==> row@ == (RowView {
                columns: columns.deep_view(),
                values: values.deep_view(),
            }),
    {
        if columns.len() == values.len() {
            Some(SqliteRow { columns: Rc::new(columns), values })
        } else {
            None
        }
    }

    /// A row over column names that are shared with other rows.
    pub(crate) fn with_shared_columns(columns: Rc<Vec<String>>, values: Vec<StoredValue>) -> (res:
        SqliteRow)
        requires
            columns.len() == values.len(),
        ensures
            res@ == (RowView { columns: columns.deep_view(), values: values.deep_view() }),
    {
        SqliteRow { columns, values }
    }

    /// The number of columns, which is the number of values.
    pub fn width(&self) -> (res: usize)
        ensures
            res == self@.columns.len(),
            self@.well_formed(),
    {
        proof {
            use_type_invariant(self);
        }
        self.columns.len()
    }

    fn position(&self, name: &String) -> (res: Option<usize>)
        ensures
            res is Some <==> column_position(self@.columns, name@) is Some,
            res matches Some(position) ==> column_position(self@.columns, name@) == Some(
                position as int,
            ) && position < self.values.len(),
    {
        proof {
            use_type_invariant(self);
        }
        let ghost columns = self@.columns;
        let mut upper: usize = self.columns.len();
        assert(columns.subrange(0, upper as int) =~= columns);
        while upper > 0
            invariant
                upper <= self.columns.len(),
                columns == self@.columns,
                columns.len() == self.columns.len(),
                self.columns.len() == self.values.len(),
                column_position(columns, name@) == column_position(
                    columns.subrange(0, upper as int),
                    name@,
                ),
            decreases upper,
        {
            let ghost prefix = columns.subrange(0, upper as int);
            assert(prefix.drop_last() =~= columns.subrange(0, upper - 1));
            assert(prefix.last() == self.columns[upper - 1]@);
            upper -= 1;
            if self.columns[upper] == *name {
                return Some(upper);
            }
        }
        None
    }

    /// Whether the row has a column of the name `name`, and so a value under
    /// it.
    pub fn has_feature(&self, name: &String) -> (res: bool)
        ensures
            res == (self@.stored(name@) is Some),
    {
        self.position(name).is_some()
    }

    /// The value under `name`, or `None` where it is NULL. A name that no
    /// column carries is answered with the failure `missing_feature` gives.
    pub fn feature(&self, name: &String) -> (res: Result<Option<ValueUnion<'_>>>)
        ensures
            match self@.stored(name@) {
                Some(stored) => match res {
                    Ok(Some(value)) => decoded(stored) == Some(value@),
                    Ok(None) => decoded(stored) is None,
                    Err(_) => false,
                },
                None => res matches Err(error) && is_missing_feature(error, name@),
            },
    {
        match self.position(name) {
            Some(position) => Ok(decode_value(&self.values[position])),
            None => Err(missing_feature(name.as_str())),
        }
    }
}

} // verus!
