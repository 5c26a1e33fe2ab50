use crate::database_providers::sqlite::encoding::decimal_digits;
use crate::database_providers::sqlite::encoding::default_encoding;
use crate::database_providers::sqlite::encoding::digit_char;
use crate::database_providers::sqlite::encoding::decimal_digits_of_a_number_are_few;
use crate::database_providers::sqlite::encoding::encoded;
use crate::database_providers::sqlite::encoding::is_too_long_a_name;
use crate::database_providers::sqlite::encoding::is_whole_number;
use crate::database_providers::sqlite::encoding::parameter_name_of;
use crate::database_providers::sqlite::encoding::EncodingView;
use crate::database_providers::sqlite::rows::column_position;
use crate::database_providers::sqlite::rows::decoded;
use crate::database_providers::sqlite::values::is_not_a_number;
use crate::database_providers::sqlite::values::Stored;
use crate::database_providers::sqlite::values::MAX_NAME_BYTES;
use crate::query_execution::is_identifier;
use crate::query_execution::is_identifier_part;
use crate::domain::DataType;
use crate::domain::Date;
use crate::domain::DateTime;
use crate::domain::ValueView;
use vstd::prelude::*;

verus! {

/// What a value comes back as once it was stored in its encoded form, in a
/// column that keeps the storage kind it is given, and taken out again.
/// `None` where the value has no encoding.
pub open spec fn taken_back(value: ValueView, encoding: EncodingView) -> Option<ValueView> {
    match encoded(value, encoding) {
        Some(stored) => decoded(stored),
        None => None,
    }
}

/// The number that a run of decimal digits writes.
pub open spec fn decimal_value(digits: Seq<char>) -> nat
    decreases digits.len(),
{
    if digits.len() == 0 {
        0
    } else {
        10 * decimal_value(digits.drop_last()) + digit_value(digits.last())
    }
}

/// The number that a decimal digit writes; 0 for any other character.
pub open spec fn digit_value(digit: char) -> nat {
    if '0' <= digit && digit <= '9' {
        (digit as nat - '0' as nat) as nat
    } else {
        0
    }
}

/// The decimal digits of a number are digits, at least one of them, with no
/// leading zero but for zero itself, and they write that number.
pub proof fn decimal_digits_write_the_number(number: nat)
    ensures
        decimal_digits(number).len() >= 1,
        forall|i: int|
            0 <= i < decimal_digits(number).len() ==> '0' <= #[trigger] decimal_digits(number)[i]
                && decimal_digits(number)[i] <= '9',
        number > 0 ==> decimal_digits(number)[0] != '0',
        decimal_value(decimal_digits(number)) == number,
    decreases number,
{
    if number < 10 {
        let digits = decimal_digits(number);
        assert(digits =~= seq![digit_char(number)]);
        assert(digits.drop_last() =~= Seq::<char>::empty());
        assert(decimal_value(digits.drop_last()) == 0);
        assert(digit_value(digits.last()) == number);
    } else {
        decimal_digits_write_the_number(number / 10);
        let shorter = decimal_digits(number / 10);
        let digits = decimal_digits(number);
        assert(digits == shorter.push(digit_char(number % 10)));
        assert(digits.drop_last() =~= shorter);
        assert(digits.last() == digit_char(number % 10));
        assert(digit_value(digit_char(number % 10)) == number % 10);
        assert(digits[0] == shorter[0]);
        assert forall|i: int| 0 <= i < digits.len() implies '0' <= #[trigger] digits[i]
            && digits[i] <= '9' by {
            if i < shorter.len() {
                assert(digits[i] == shorter[i]);
            }
        }
    }
}

/// Two identifiers that differ stand for two parameters that differ, so that
/// what is bound under one of them leaves the other alone.
pub proof fn parameter_names_are_distinct(first: Seq<char>, second: Seq<char>)
    ensures
        parameter_name_of(first) == parameter_name_of(second) <==> first == second,
        parameter_name_of(first).len() == first.len() + 1,
        parameter_name_of(first)[0] == ':',
{
    if parameter_name_of(first) == parameter_name_of(second) {
        assert(first =~= parameter_name_of(first).subrange(1, first.len() as int + 1));
        assert(second =~= parameter_name_of(second).subrange(1, second.len() as int + 1));
    }
}

/// The name of a parameter is too long for the engine exactly where the
/// identifier has 2^30 - 1 characters or more: an identifier is ASCII, so
/// its name has one byte for the colon and one for each character.
pub proof fn long_name_has_a_long_identifier(identifier: Seq<char>)
    requires
        is_identifier(identifier),
    ensures
        is_too_long_a_name(identifier) <==> identifier.len() + 1 >= MAX_NAME_BYTES,
{
    let name = parameter_name_of(identifier);
    assert forall|i: int| 0 <= i < name.len() implies '\0' <= #[trigger] name[i] && name[i]
        <= '\u{7f}' by {
        if i > 0 {
            assert(name[i] == identifier[i - 1]);
            assert(is_identifier_part(identifier[i - 1]));
        }
    }
    vstd::utf8::is_ascii_chars_encode_utf8(name);
}

/// A whole number of any width always has an encoding, and one that is
/// short enough for the engine: a query accepts it whatever its encoding.
pub proof fn whole_number_is_always_accepted(value: ValueView, encoding: EncodingView)
    requires
        is_whole_number(value),
    ensures
        encoded(value, encoding) matches Some(stored) && stored.fits_parameter(),
{
    match value {
        ValueView::U64(number) => {
            decimal_digits_of_a_number_are_few(number);
            vstd::utf8::is_ascii_chars_encode_utf8(decimal_digits(number as nat));
        },
        _ => {},
    }
}

/// An unsigned 64-bit number that fits a signed one comes back as that
/// number, a 64-bit signed integer. A larger one comes back as text: its
/// decimal digits.
pub proof fn unsigned_number_round_trip(number: u64, encoding: EncodingView)
    ensures
        number <= i64::MAX ==> taken_back(ValueView::U64(number), encoding) == Some(
            ValueView::I64(number as i64),
        ),
        number > i64::MAX ==> taken_back(ValueView::U64(number), encoding) == Some(
            ValueView::String(decimal_digits(number as nat)),
        ),
{
}

/// Every integer of at most 64 bits that fits a signed 64-bit integer comes
/// back as a 64-bit signed integer of the same value.
pub proof fn integer_round_trip(value: ValueView, encoding: EncodingView)
    ensures
        value matches ValueView::U8(number) ==> taken_back(value, encoding) == Some(
            ValueView::I64(number as i64),
        ),
        value matches ValueView::U16(number) ==> taken_back(value, encoding) == Some(
            ValueView::I64(number as i64),
        ),
        value matches ValueView::U32(number) ==> taken_back(value, encoding) == Some(
            ValueView::I64(number as i64),
        ),
        value matches ValueView::I8(number) ==> taken_back(value, encoding) == Some(
            ValueView::I64(number as i64),
        ),
        value matches ValueView::I16(number) ==> taken_back(value, encoding) == Some(
            ValueView::I64(number as i64),
        ),
        value matches ValueView::I32(number) ==> taken_back(value, encoding) == Some(
            ValueView::I64(number as i64),
        ),
        value matches ValueView::I64(number) ==> taken_back(value, encoding) == Some(
            ValueView::I64(number),
        ),
{
}

/// A boolean comes back as text: the text configured for it. Under the
/// default encoding that is `true` or `false`.
pub proof fn boolean_round_trip(flag: bool, encoding: EncodingView)
    ensures
        taken_back(ValueView::Bool(flag), encoding) == Some(
            ValueView::String(
                if flag {
                    encoding.true_string
                } else {
                    encoding.false_string
                },
            ),
        ),
        taken_back(ValueView::Bool(true), default_encoding()) == Some(ValueView::String("true"@)),
        taken_back(ValueView::Bool(false), default_encoding()) == Some(
            ValueView::String("false"@),
        ),
{
}

/// A date comes back as text: what the configured pattern writes for it.
/// Where the pattern cannot be applied, the date has no encoding.
pub proof fn date_round_trip(date: Date, encoding: EncodingView)
    ensures
        date.text(encoding.date_format) matches Some(text) ==> taken_back(
            ValueView::Date(date),
            encoding,
        ) == Some(ValueView::String(text)),
        date.text(encoding.date_format) is None ==> taken_back(ValueView::Date(date), encoding)
            is None,
{
}

/// A date and time comes back as text: what the configured pattern writes
/// for it. Where the pattern cannot be applied, the moment has no encoding.
pub proof fn date_time_round_trip(moment: DateTime, encoding: EncodingView)
    ensures
        moment.text(encoding.datetime_format) matches Some(text) ==> taken_back(
            ValueView::DateTime(moment),
            encoding,
        ) == Some(ValueView::String(text)),
        moment.text(encoding.datetime_format) is None ==> taken_back(
            ValueView::DateTime(moment),
            encoding,
        ) is None,
{
}

/// Text and bytes come back as they went in.
pub proof fn text_and_bytes_round_trip(value: ValueView, encoding: EncodingView)
    ensures
        value is String || value is Bytestring ==> taken_back(value, encoding) == Some(value),
{
}

/// Whatever is bound, it is bound as an integer, as text or as bytes: never
/// as a floating-point number and never as NULL.
pub proof fn encoding_has_three_kinds(value: ValueView, encoding: EncodingView)
    ensures
        encoded(value, encoding) matches Some(stored) ==> stored is Integer || stored is Text
            || stored is Binary,
        encoded(value, encoding) is None ==> value is F32 || value is F64 || value is Date
            || value is DateTime,
{
}

/// A value is bound as it is, but for a floating-point pattern that stands
/// for no number, which is bound as NULL. What the crate encodes is never
/// such a pattern, so it is bound as it is.
pub proof fn value_is_bound_as_it_is(stored: Stored, value: ValueView, encoding: EncodingView)
    ensures
        stored.as_bound() != stored <==> (stored matches Stored::Float(bits) && is_not_a_number(
            bits,
        )),
        stored.as_bound().as_bound() == stored.as_bound(),
        encoded(value, encoding) matches Some(bound) ==> bound.as_bound() == bound,
{
}

/// Whatever is stored, it is taken out as one of four kinds, however rich
/// the kind was that went in; NULL alone is taken out as nothing.
pub proof fn extraction_has_four_kinds(stored: Stored)
    ensures
        decoded(stored) is None <==> stored is Null,
        decoded(stored) matches Some(value) ==> {
            ||| value.data_type() == DataType::Bytestring
            ||| value.data_type() == DataType::F64
            ||| value.data_type() == DataType::I64
            ||| value.data_type() == DataType::String
        },
{
}

/// The column that answers for a name is the last one that carries it, and
/// no column answers for a name that none carries.
pub proof fn last_column_of_a_name_answers(columns: Seq<Seq<char>>, name: Seq<char>)
    ensures
        column_position(columns, name) matches Some(position) ==> {
            &&& 0 <= position < columns.len()
            &&& columns[position] == name
            &&& forall|later: int| position < later < columns.len() ==> columns[later] != name
        },
        column_position(columns, name) is None ==> forall|any: int|
            0 <= any < columns.len() ==> columns[any] != name,
    decreases columns.len(),
{
    if columns.len() > 0 && columns.last() != name {
        last_column_of_a_name_answers(columns.drop_last(), name);
        assert forall|any: int| 0 <= any < columns.len() - 1 implies columns[any]
            == columns.drop_last()[any] by {}
    }
}

} // verus!
