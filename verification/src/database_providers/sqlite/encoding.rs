use crate::database_providers::sqlite::values::BoundValue;
use crate::database_providers::sqlite::values::MAX_NAME_BYTES;
use crate::database_providers::sqlite::values::Stored;
use crate::domain::ValueUnion;
use crate::domain::ValueView;
use vstd::prelude::*;
use vstd::slice::slice_to_vec;
use vstd::string::*;

verus! {

/// How a connection writes the kinds of value that the engine has no storage
/// kind for.
#[derive(Debug, PartialEq, Eq)]
pub struct Encoding {
    /// The text stored for `true`.
    pub true_string: String,
    /// The text stored for `false`.
    pub false_string: String,
    /// The strftime pattern under which a date is stored.
    pub date_format: String,
    /// The strftime pattern under which a date and time is stored.
    pub datetime_format: String,
}

/// The four texts of an [`Encoding`].
pub ghost struct EncodingView {
    pub true_string: Seq<char>,
    pub false_string: Seq<char>,
    pub date_format: Seq<char>,
    pub datetime_format: Seq<char>,
}

impl View for Encoding {
    type V = EncodingView;

    open spec fn view(&self) -> EncodingView {
        EncodingView {
            true_string: self.true_string@,
            false_string: self.false_string@,
            date_format: self.date_format@,
            datetime_format: self.datetime_format@,
        }
    }
}

/// The encoding a connection starts with: `true` and `false` for booleans,
/// the ISO 8601 calendar date for dates, RFC 3339 with an offset for moments.
pub open spec fn default_encoding() -> EncodingView {
    EncodingView {
        true_string: "true"@,
        false_string: "false"@,
        date_format: "%F"@,
        datetime_format: "%+"@,
    }
}

impl Default for Encoding {
    fn default() -> (res: Encoding)
        ensures
            res@ == default_encoding(),
    {
        Encoding {
            true_string: String::from_str("true"),
            false_string: String::from_str("false"),
            date_format: String::from_str("%F"),
            datetime_format: String::from_str("%+"),
        }
    }
}

/// The character that writes a decimal digit.
pub open spec fn digit_char(digit: nat) -> char {
    if digit == 0 {
        '0'
    } else if digit == 1 {
        '1'
    } else if digit == 2 {
        '2'
    } else if digit == 3 {
        '3'
    } else if digit == 4 {
        '4'
    } else if digit == 5 {
        '5'
    } else if digit == 6 {
        '6'
    } else if digit == 7 {
        '7'
    } else if digit == 8 {
        '8'
    } else {
        '9'
    }
}

/// The decimal digits of a number, most significant first, without a sign or
/// leading zeros.
pub open spec fn decimal_digits(number: nat) -> Seq<char>
    decreases number,
{
    if number < 10 {
        seq![digit_char(number)]
    } else {
        decimal_digits(number / 10).push(digit_char(number % 10))
    }
}

fn digit_text(digit: u64) -> (res: &'static str)
    requires
        digit < 10,
    ensures
        res@ == seq![digit_char(digit as nat)],
{
    proof {
        reveal_strlit("0");
        reveal_strlit("1");
        reveal_strlit("2");
        reveal_strlit("3");
        reveal_strlit("4");
        reveal_strlit("5");
        reveal_strlit("6");
        reveal_strlit("7");
        reveal_strlit("8");
        reveal_strlit("9");
    }
    let text = if digit == 0 {
        "0"
    } else if digit == 1 {
        "1"
    } else if digit == 2 {
        "2"
    } else if digit == 3 {
        "3"
    } else if digit == 4 {
        "4"
    } else if digit == 5 {
        "5"
    } else if digit == 6 {
        "6"
    } else if digit == 7 {
        "7"
    } else if digit == 8 {
        "8"
    } else {
        "9"
    };
    assert(text@ =~= seq![digit_char(digit as nat)]);
    text
}

fn append_decimal(number: u64, text: &mut String)
    ensures
        final(text)@ == old(text)@ + decimal_digits(number as nat),
    decreases number,
{
    if number >= 10 {
        append_decimal(number / 10, text);
    }
    text.append(digit_text(number % 10));
}

/// Writes a number in decimal.
pub fn decimal_text(number: u64) -> (res: String)
    ensures
        res@ == decimal_digits(number as nat),
{
    let mut text = String::new();
    append_decimal(number, &mut text);
    text
}

/// Ten to the power of `exponent`.
pub open spec fn power_of_ten(exponent: nat) -> nat
    decreases exponent,
{
    if exponent == 0 {
        1
    } else {
        10 * power_of_ten((exponent - 1) as nat)
    }
}

/// A number below ten to the power of `count` has at most `count` decimal
/// digits, all of them ASCII.
pub proof fn decimal_digits_are_few(number: nat, count: nat)
    requires
        count >= 1,
        number < power_of_ten(count),
    ensures
        decimal_digits(number).len() <= count,
        vstd::utf8::is_ascii_chars(decimal_digits(number)),
    decreases count,
{
    if number < 10 {
        assert(decimal_digits(number) =~= seq![digit_char(number)]);
    } else {
        assert(count >= 2) by {
            reveal_with_fuel(power_of_ten, 2);
        }
        decimal_digits_are_few(number / 10, (count - 1) as nat);
        let shorter = decimal_digits(number / 10);
        let digits = decimal_digits(number);
        assert(digits == shorter.push(digit_char(number % 10)));
        assert forall|i: int| 0 <= i < digits.len() implies '\0' <= #[trigger] digits[i]
            && digits[i] <= '\u{7f}' by {
            if i < shorter.len() {
                assert(digits[i] == shorter[i]);
            }
        }
    }
}

/// A 64-bit number has at most twenty decimal digits, all of them ASCII.
pub proof fn decimal_digits_of_a_number_are_few(number: u64)
    ensures
        decimal_digits(number as nat).len() <= 20,
        vstd::utf8::is_ascii_chars(decimal_digits(number as nat)),
{
    assert(power_of_ten(20) == 100_000_000_000_000_000_000nat) by {
        reveal_with_fuel(power_of_ten, 21);
    }
    decimal_digits_are_few(number as nat, 20);
}

/// The name of the bind parameter that an identifier stands for: a colon,
/// then the identifier.
pub open spec fn parameter_name_of(identifier: Seq<char>) -> Seq<char> {
    seq![':'] + identifier
}

/// Whether the parameter name for `identifier` is so long that the engine
/// would no longer tell it from a shorter one.
pub open spec fn is_too_long_a_name(identifier: Seq<char>) -> bool {
    vstd::utf8::encode_utf8(parameter_name_of(identifier)).len() >= MAX_NAME_BYTES
}

/// The name under which the engine knows the parameter for `identifier`.
pub fn parameter_name(identifier: &str) -> (res: String)
    ensures
        res@ == parameter_name_of(identifier@),
{
    proof {
        reveal_strlit(":");
    }
    let mut name = String::from_str(":");
    name.append(identifier);
    assert(name@ =~= parameter_name_of(identifier@));
    name
}

/// The storage value that stands for `value` under `encoding`, or `None`
/// where there is none: for a floating-point number, and for a date or a
/// moment that the configured pattern cannot be applied to.
///
/// Booleans become the configured texts. Integers become 64-bit signed
/// integers, except that an unsigned 64-bit number above `i64::MAX` becomes
/// its decimal digits. Text and bytes pass through. Dates and moments become
/// text under the configured patterns.
pub open spec fn encoded(value: ValueView, encoding: EncodingView) -> Option<Stored> {
    match value {
        ValueView::Bool(flag) => Some(
            Stored::Text(
                if flag {
                    encoding.true_string
                } else {
                    encoding.false_string
                },
            ),
        ),
        ValueView::U8(number) => Some(Stored::Integer(number as i64)),
        ValueView::U16(number) => Some(Stored::Integer(number as i64)),
        ValueView::U32(number) => Some(Stored::Integer(number as i64)),
        ValueView::U64(number) => if number <= i64::MAX {
            Some(Stored::Integer(number as i64))
        } else {
            Some(Stored::Text(decimal_digits(number as nat)))
        },
        ValueView::I8(number) => Some(Stored::Integer(number as i64)),
        ValueView::I16(number) => Some(Stored::Integer(number as i64)),
        ValueView::I32(number) => Some(Stored::Integer(number as i64)),
        ValueView::I64(number) => Some(Stored::Integer(number)),
        ValueView::F32(_) => None,
        ValueView::F64(_) => None,
        ValueView::String(text) => Some(Stored::Text(text)),
        ValueView::Bytestring(bytes) => Some(Stored::Binary(bytes)),
        ValueView::Date(date) => match date.text(encoding.date_format) {
            Some(text) => Some(Stored::Text(text)),
            None => None,
        },
        ValueView::DateTime(moment) => match moment.text(encoding.datetime_format) {
            Some(text) => Some(Stored::Text(text)),
            None => None,
        },
    }
}

/// Whether `value` is a whole number of any width.
pub open spec fn is_whole_number(value: ValueView) -> bool {
    value is U8 || value is U16 || value is U32 || value is U64 || value is I8 || value is I16
        || value is I32 || value is I64
}

/// Whether `value` is a date or a moment and `encoding` has the default
/// pattern for it: `%F` for a date, `%+` for a moment.
pub open spec fn is_written_by_default(value: ValueView, encoding: EncodingView) -> bool {
    ||| value is Date && encoding.date_format == "%F"@
    ||| value is DateTime && encoding.datetime_format == "%+"@
}

/// Puts `value` into the form in which it is bound, as `encoded` says. A
/// date or a moment under its default pattern always has such a form, and a
/// short one.
pub fn encode_value(value: &ValueUnion, encoding: &Encoding) -> (res: Option<BoundValue>)
    ensures
        res is Some <==> encoded(value@, encoding@) is Some,
        res matches Some(bound) ==> encoded(value@, encoding@) == Some(bound@),
        is_written_by_default(value@, encoding@) || is_whole_number(value@) ==> (
        res matches Some(bound) && bound@.fits_parameter()),
{
    broadcast use vstd::utf8::is_ascii_chars_encode_utf8;

    proof {
        match value@ {
            ValueView::U64(number) => {
                decimal_digits_of_a_number_are_few(number);
            },
            _ => {},
        }
    }

    match value {
        ValueUnion::Bool(flag) => {
            if *flag {
                Some(BoundValue::Text(encoding.true_string.clone()))
            } else {
                Some(BoundValue::Text(encoding.false_string.clone()))
            }
        },
        ValueUnion::U8(number) => Some(BoundValue::Integer(*number as i64)),
        ValueUnion::U16(number) => Some(BoundValue::Integer(*number as i64)),
        ValueUnion::U32(number) => Some(BoundValue::Integer(*number as i64)),
        ValueUnion::U64(number) => {
            if *number <= 0x7fff_ffff_ffff_ffff {
                Some(BoundValue::Integer(*number as i64))
            } else {
                Some(BoundValue::Text(decimal_text(*number)))
            }
        },
        ValueUnion::I8(number) => Some(BoundValue::Integer(*number as i64)),
        ValueUnion::I16(number) => Some(BoundValue::Integer(*number as i64)),
        ValueUnion::I32(number) => Some(BoundValue::Integer(*number as i64)),
        ValueUnion::I64(number) => Some(BoundValue::Integer(*number)),
        ValueUnion::F32(_) => None,
        ValueUnion::F64(_) => None,
        ValueUnion::String(text) => Some(BoundValue::Text((*text).clone())),
        ValueUnion::Bytestring(bytes) => Some(BoundValue::Binary(slice_to_vec(*bytes))),
        ValueUnion::Date(date) => {
            match date.format(encoding.date_format.as_str()) {
                Some(text) => Some(BoundValue::Text(text)),
                None => None,
            }
        },
        ValueUnion::DateTime(moment) => {
            match moment.format(encoding.datetime_format.as_str()) {
                Some(text) => Some(BoundValue::Text(text)),
                None => None,
            }
        },
    }
}

} // verus!
