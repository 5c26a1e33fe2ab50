use crate::domain::DataType;
use crate::domain::Date;
use crate::domain::DateTime;
use crate::errors::Error;
use vstd::prelude::*;
use vstd::std_specs::convert::FromSpec;
use vstd::std_specs::convert::FromSpecImpl;
use vstd::std_specs::convert::TryFromSpec;
use vstd::std_specs::convert::TryFromSpecImpl;

verus! {

/// A single-precision number, held as its IEEE 754 bit pattern.
#[derive(Debug, Clone, Copy, PartialEq, Eq, Structural)]
pub struct F32Bits(pub u32);

/// A double-precision number, held as its IEEE 754 bit pattern.
#[derive(Debug, Clone, Copy, PartialEq, Eq, Structural)]
pub struct F64Bits(pub u64);

/// One value of any supported kind, in flight between a caller and a backend.
/// Scalars are held by value; text, bytes, dates and date-times are borrowed
/// from whoever owns them.
#[derive(Debug, Clone, Copy, PartialEq)]
pub enum ValueUnion<'value> {
    Bool(bool),
    U8(u8),
    U16(u16),
    U32(u32),
    U64(u64),
    I8(i8),
    I16(i16),
    I32(i32),
    I64(i64),
    F32(F32Bits),
    F64(F64Bits),
    String(&'value String),
    Bytestring(&'value [u8]),
    Date(&'value Date),
    DateTime(&'value DateTime),
}

/// What a [`ValueUnion`] holds, with borrowed text and bytes read out.
pub ghost enum ValueView {
    Bool(bool),
    U8(u8),
    U16(u16),
    U32(u32),
    U64(u64),
    I8(i8),
    I16(i16),
    I32(i32),
    I64(i64),
    F32(F32Bits),
    F64(F64Bits),
    String(Seq<char>),
    Bytestring(Seq<u8>),
    Date(Date),
    DateTime(DateTime),
}

impl ValueView {
    /// The kind of the value held.
    pub open spec fn data_type(self) -> DataType {
        match self {
            ValueView::Bool(_) => DataType::Bool,
            ValueView::U8(_) => DataType::U8,
            ValueView::U16(_) => DataType::U16,
            ValueView::U32(_) => DataType::U32,
            ValueView::U64(_) => DataType::U64,
            ValueView::I8(_) => DataType::I8,
            ValueView::I16(_) => DataType::I16,
            ValueView::I32(_) => DataType::I32,
            ValueView::I64(_) => DataType::I64,
            ValueView::F32(_) => DataType::F32,
            ValueView::F64(_) => DataType::F64,
            ValueView::String(_) => DataType::String,
            ValueView::Bytestring(_) => DataType::Bytestring,
            ValueView::Date(_) => DataType::Date,
            ValueView::DateTime(_) => DataType::DateTime,
        }
    }
}

impl<'value> View for ValueUnion<'value> {
    type V = ValueView;

    open spec fn view(&self) -> ValueView {
        match *self {
            ValueUnion::Bool(value) => ValueView::Bool(value),
            ValueUnion::U8(value) => ValueView::U8(value),
            ValueUnion::U16(value) => ValueView::U16(value),
            ValueUnion::U32(value) => ValueView::U32(value),
            ValueUnion::U64(value) => ValueView::U64(value),
            ValueUnion::I8(value) => ValueView::I8(value),
            ValueUnion::I16(value) => ValueView::I16(value),
            ValueUnion::I32(value) => ValueView::I32(value),
            ValueUnion::I64(value) => ValueView::I64(value),
            ValueUnion::F32(value) => ValueView::F32(value),
            ValueUnion::F64(value) => ValueView::F64(value),
            ValueUnion::String(text) => ValueView::String(text@),
            ValueUnion::Bytestring(bytes) => ValueView::Bytestring(bytes@),
            ValueUnion::Date(date) => ValueView::Date(*date),
            ValueUnion::DateTime(moment) => ValueView::DateTime(*moment),
        }
    }
}

impl<'value> ValueUnion<'value> {
    /// The kind of the value held.
    pub fn data_type(&self) -> (res: DataType)
        ensures
            res == self@.data_type(),
    {
        match self {
            ValueUnion::Bool(_) => DataType::Bool,
            ValueUnion::U8(_) => DataType::U8,
            ValueUnion::U16(_) => DataType::U16,
            ValueUnion::U32(_) => DataType::U32,
            ValueUnion::U64(_) => DataType::U64,
            ValueUnion::I8(_) => DataType::I8,
            ValueUnion::I16(_) => DataType::I16,
            ValueUnion::I32(_) => DataType::I32,
            ValueUnion::I64(_) => DataType::I64,
            ValueUnion::F32(_) => DataType::F32,
            ValueUnion::F64(_) => DataType::F64,
            ValueUnion::String(_) => DataType::String,
            ValueUnion::Bytestring(_) => DataType::Bytestring,
            ValueUnion::Date(_) => DataType::Date,
            ValueUnion::DateTime(_) => DataType::DateTime,
        }
    }
}

impl<'value> From<bool> for ValueUnion<'value> {
    fn from(value: bool) -> (res: Self) {
        ValueUnion::Bool(value)
    }
}

impl<'value> FromSpecImpl<bool> for ValueUnion<'value> {
    open spec fn obeys_from_spec() -> bool {
        true
    }

    open spec fn from_spec(value: bool) -> Self {
        ValueUnion::Bool(value)
    }
}

impl<'value> TryFrom<ValueUnion<'value>> for bool {
    type Error = Error;

    fn try_from(value: ValueUnion<'value>) -> (res: core::result::Result<Self, Error>) {
        match value {
            ValueUnion::Bool(held) => Ok(held),
            _ => Err(
                Error::ValueCannotBeAccessedAsRequestedType {
                    value_type: value.data_type(),
                    requested_type: DataType::Bool,
                },
            ),
        }
    }
}

impl<'value> TryFromSpecImpl<ValueUnion<'value>> for bool {
    open spec fn obeys_try_from_spec() -> bool {
        true
    }

    open spec fn try_from_spec(value: ValueUnion<'value>) -> core::result::Result<Self, Error> {
        match value {
            ValueUnion::Bool(held) => Ok(held),
            _ => Err(
                Error::ValueCannotBeAccessedAsRequestedType {
                    value_type: value@.data_type(),
                    requested_type: DataType::Bool,
                },
            ),
        }
    }
}

impl<'value> From<u8> for ValueUnion<'value> {
    fn from(value: u8) -> (res: Self) {
        ValueUnion::U8(value)
    }
}

impl<'value> FromSpecImpl<u8> for ValueUnion<'value> {
    open spec fn obeys_from_spec() -> bool {
        true
    }

    open spec fn from_spec(value: u8) -> Self {
        ValueUnion::U8(value)
    }
}

impl<'value> TryFrom<ValueUnion<'value>> for u8 {
    type Error = Error;

    fn try_from(value: ValueUnion<'value>) -> (res: core::result::Result<Self, Error>) {
        match value {
            ValueUnion::U8(held) => Ok(held),
            _ => Err(
                Error::ValueCannotBeAccessedAsRequestedType {
                    value_type: value.data_type(),
                    requested_type: DataType::U8,
                },
            ),
        }
    }
}

impl<'value> TryFromSpecImpl<ValueUnion<'value>> for u8 {
    open spec fn obeys_try_from_spec() -> bool {
        true
    }

    open spec fn try_from_spec(value: ValueUnion<'value>) -> core::result::Result<Self, Error> {
        match value {
            ValueUnion::U8(held) => Ok(held),
            _ => Err(
                Error::ValueCannotBeAccessedAsRequestedType {
                    value_type: value@.data_type(),
                    requested_type: DataType::U8,
                },
            ),
        }
    }
}

impl<'value> From<u16> for ValueUnion<'value> {
    fn from(value: u16) -> (res: Self) {
        ValueUnion::U16(value)
    }
}

impl<'value> FromSpecImpl<u16> for ValueUnion<'value> {
    open spec fn obeys_from_spec() -> bool {
        true
    }

    open spec fn from_spec(value: u16) -> Self {
        ValueUnion::U16(value)
    }
}

impl<'value> TryFrom<ValueUnion<'value>> for u16 {
    type Error = Error;

    fn try_from(value: ValueUnion<'value>) -> (res: core::result::Result<Self, Error>) {
        match value {
            ValueUnion::U16(held) => Ok(held),
            _ => Err(
                Error::ValueCannotBeAccessedAsRequestedType {
                    value_type: value.data_type(),
                    requested_type: DataType::U16,
                },
            ),
        }
    }
}

impl<'value> TryFromSpecImpl<ValueUnion<'value>> for u16 {
    open spec fn obeys_try_from_spec() -> bool {
        true
    }

    open spec fn try_from_spec(value: ValueUnion<'value>) -> core::result::Result<Self, Error> {
        match value {
            ValueUnion::U16(held) => Ok(held),
            _ => Err(
                Error::ValueCannotBeAccessedAsRequestedType {
                    value_type: value@.data_type(),
                    requested_type: DataType::U16,
                },
            ),
        }
    }
}

impl<'value> From<u32> for ValueUnion<'value> {
    fn from(value: u32) -> (res: Self) {
        ValueUnion::U32(value)
    }
}

impl<'value> FromSpecImpl<u32> for ValueUnion<'value> {
    open spec fn obeys_from_spec() -> bool {
        true
    }

    open spec fn from_spec(value: u32) -> Self {
        ValueUnion::U32(value)
    }
}

impl<'value> TryFrom<ValueUnion<'value>> for u32 {
    type Error = Error;

    fn try_from(value: ValueUnion<'value>) -> (res: core::result::Result<Self, Error>) {
        match value {
            ValueUnion::U32(held) => Ok(held),
            _ => Err(
                Error::ValueCannotBeAccessedAsRequestedType {
                    value_type: value.data_type(),
                    requested_type: DataType::U32,
                },
            ),
        }
    }
}

impl<'value> TryFromSpecImpl<ValueUnion<'value>> for u32 {
    open spec fn obeys_try_from_spec() -> bool {
        true
    }

    open spec fn try_from_spec(value: ValueUnion<'value>) -> core::result::Result<Self, Error> {
        match value {
            ValueUnion::U32(held) => Ok(held),
            _ => Err(
                Error::ValueCannotBeAccessedAsRequestedType {
                    value_type: value@.data_type(),
                    requested_type: DataType::U32,
                },
            ),
        }
    }
}

impl<'value> From<u64> for ValueUnion<'value> {
    fn from(value: u64) -> (res: Self) {
        ValueUnion::U64(value)
    }
}

impl<'value> FromSpecImpl<u64> for ValueUnion<'value> {
    open spec fn obeys_from_spec() -> bool {
        true
    }

    open spec fn from_spec(value: u64) -> Self {
        ValueUnion::U64(value)
    }
}

impl<'value> TryFrom<ValueUnion<'value>> for u64 {
    type Error = Error;

    fn try_from(value: ValueUnion<'value>) -> (res: core::result::Result<Self, Error>) {
        match value {
            ValueUnion::U64(held) => Ok(held),
            _ => Err(
                Error::ValueCannotBeAccessedAsRequestedType {
                    value_type: value.data_type(),
                    requested_type: DataType::U64,
                },
            ),
        }
    }
}

impl<'value> TryFromSpecImpl<ValueUnion<'value>> for u64 {
    open spec fn obeys_try_from_spec() -> bool {
        true
    }

    open spec fn try_from_spec(value: ValueUnion<'value>) -> core::result::Result<Self, Error> {
        match value {
            ValueUnion::U64(held) => Ok(held),
            _ => Err(
                Error::ValueCannotBeAccessedAsRequestedType {
                    value_type: value@.data_type(),
                    requested_type: DataType::U64,
                },
            ),
        }
    }
}

impl<'value> From<i8> for ValueUnion<'value> {
    fn from(value: i8) -> (res: Self) {
        ValueUnion::I8(value)
    }
}

impl<'value> FromSpecImpl<i8> for ValueUnion<'value> {
    open spec fn obeys_from_spec() -> bool {
        true
    }

    open spec fn from_spec(value: i8) -> Self {
        ValueUnion::I8(value)
    }
}

impl<'value> TryFrom<ValueUnion<'value>> for i8 {
    type Error = Error;

    fn try_from(value: ValueUnion<'value>) -> (res: core::result::Result<Self, Error>) {
        match value {
            ValueUnion::I8(held) => Ok(held),
            _ => Err(
                Error::ValueCannotBeAccessedAsRequestedType {
                    value_type: value.data_type(),
                    requested_type: DataType::I8,
                },
            ),
        }
    }
}

impl<'value> TryFromSpecImpl<ValueUnion<'value>> for i8 {
    open spec fn obeys_try_from_spec() -> bool {
        true
    }

    open spec fn try_from_spec(value: ValueUnion<'value>) -> core::result::Result<Self, Error> {
        match value {
            ValueUnion::I8(held) => Ok(held),
            _ => Err(
                Error::ValueCannotBeAccessedAsRequestedType {
                    value_type: value@.data_type(),
                    requested_type: DataType::I8,
                },
            ),
        }
    }
}

impl<'value> From<i16> for ValueUnion<'value> {
    fn from(value: i16) -> (res: Self) {
        ValueUnion::I16(value)
    }
}

impl<'value> FromSpecImpl<i16> for ValueUnion<'value> {
    open spec fn obeys_from_spec() -> bool {
        true
    }

    open spec fn from_spec(value: i16) -> Self {
        ValueUnion::I16(value)
    }
}

impl<'value> TryFrom<ValueUnion<'value>> for i16 {
    type Error = Error;

    fn try_from(value: ValueUnion<'value>) -> (res: core::result::Result<Self, Error>) {
        match value {
            ValueUnion::I16(held) => Ok(held),
            _ => Err(
                Error::ValueCannotBeAccessedAsRequestedType {
                    value_type: value.data_type(),
                    requested_type: DataType::I16,
                },
            ),
        }
    }
}

impl<'value> TryFromSpecImpl<ValueUnion<'value>> for i16 {
    open spec fn obeys_try_from_spec() -> bool {
        true
    }

    open spec fn try_from_spec(value: ValueUnion<'value>) -> core::result::Result<Self, Error> {
        match value {
            ValueUnion::I16(held) => Ok(held),
            _ => Err(
                Error::ValueCannotBeAccessedAsRequestedType {
                    value_type: value@.data_type(),
                    requested_type: DataType::I16,
                },
            ),
        }
    }
}

impl<'value> From<i32> for ValueUnion<'value> {
    fn from(value: i32) -> (res: Self) {
        ValueUnion::I32(value)
    }
}

impl<'value> FromSpecImpl<i32> for ValueUnion<'value> {
    open spec fn obeys_from_spec() -> bool {
        true
    }

    open spec fn from_spec(value: i32) -> Self {
        ValueUnion::I32(value)
    }
}

impl<'value> TryFrom<ValueUnion<'value>> for i32 {
    type Error = Error;

    fn try_from(value: ValueUnion<'value>) -> (res: core::result::Result<Self, Error>) {
        match value {
            ValueUnion::I32(held) => Ok(held),
            _ => Err(
                Error::ValueCannotBeAccessedAsRequestedType {
                    value_type: value.data_type(),
                    requested_type: DataType::I32,
                },
            ),
        }
    }
}

impl<'value> TryFromSpecImpl<ValueUnion<'value>> for i32 {
    open spec fn obeys_try_from_spec() -> bool {
        true
    }

    open spec fn try_from_spec(value: ValueUnion<'value>) -> core::result::Result<Self, Error> {
        match value {
            ValueUnion::I32(held) => Ok(held),
            _ => Err(
                Error::ValueCannotBeAccessedAsRequestedType {
                    value_type: value@.data_type(),
                    requested_type: DataType::I32,
                },
            ),
        }
    }
}

impl<'value> From<i64> for ValueUnion<'value> {
    fn from(value: i64) -> (res: Self) {
        ValueUnion::I64(value)
    }
}

impl<'value> FromSpecImpl<i64> for ValueUnion<'value> {
    open spec fn obeys_from_spec() -> bool {
        true
    }

    open spec fn from_spec(value: i64) -> Self {
        ValueUnion::I64(value)
    }
}

impl<'value> TryFrom<ValueUnion<'value>> for i64 {
    type Error = Error;

    fn try_from(value: ValueUnion<'value>) -> (res: core::result::Result<Self, Error>) {
        match value {
            ValueUnion::I64(held) => Ok(held),
            _ => Err(
                Error::ValueCannotBeAccessedAsRequestedType {
                    value_type: value.data_type(),
                    requested_type: DataType::I64,
                },
            ),
        }
    }
}

impl<'value> TryFromSpecImpl<ValueUnion<'value>> for i64 {
    open spec fn obeys_try_from_spec() -> bool {
        true
    }

    open spec fn try_from_spec(value: ValueUnion<'value>) -> core::result::Result<Self, Error> {
        match value {
            ValueUnion::I64(held) => Ok(held),
            _ => Err(
                Error::ValueCannotBeAccessedAsRequestedType {
                    value_type: value@.data_type(),
                    requested_type: DataType::I64,
                },
            ),
        }
    }
}

impl<'value> From<F32Bits> for ValueUnion<'value> {
    fn from(value: F32Bits) -> (res: Self) {
        ValueUnion::F32(value)
    }
}

impl<'value> FromSpecImpl<F32Bits> for ValueUnion<'value> {
    open spec fn obeys_from_spec() -> bool {
        true
    }

    open spec fn from_spec(value: F32Bits) -> Self {
        ValueUnion::F32(value)
    }
}

impl<'value> TryFrom<ValueUnion<'value>> for F32Bits {
    type Error = Error;

    fn try_from(value: ValueUnion<'value>) -> (res: core::result::Result<Self, Error>) {
        match value {
            ValueUnion::F32(held) => Ok(held),
            _ => Err(
                Error::ValueCannotBeAccessedAsRequestedType {
                    value_type: value.data_type(),
                    requested_type: DataType::F32,
                },
            ),
        }
    }
}

impl<'value> TryFromSpecImpl<ValueUnion<'value>> for F32Bits {
    open spec fn obeys_try_from_spec() -> bool {
        true
    }

    open spec fn try_from_spec(value: ValueUnion<'value>) -> core::result::Result<Self, Error> {
        match value {
            ValueUnion::F32(held) => Ok(held),
            _ => Err(
                Error::ValueCannotBeAccessedAsRequestedType {
                    value_type: value@.data_type(),
                    requested_type: DataType::F32,
                },
            ),
        }
    }
}

impl<'value> From<F64Bits> for ValueUnion<'value> {
    fn from(value: F64Bits) -> (res: Self) {
        ValueUnion::F64(value)
    }
}

impl<'value> FromSpecImpl<F64Bits> for ValueUnion<'value> {
    open spec fn obeys_from_spec() -> bool {
        true
    }

    open spec fn from_spec(value: F64Bits) -> Self {
        ValueUnion::F64(value)
    }
}

impl<'value> TryFrom<ValueUnion<'value>> for F64Bits {
    type Error = Error;

    fn try_from(value: ValueUnion<'value>) -> (res: core::result::Result<Self, Error>) {
        match value {
            ValueUnion::F64(held) => Ok(held),
            _ => Err(
                Error::ValueCannotBeAccessedAsRequestedType {
                    value_type: value.data_type(),
                    requested_type: DataType::F64,
                },
            ),
        }
    }
}

impl<'value> TryFromSpecImpl<ValueUnion<'value>> for F64Bits {
    open spec fn obeys_try_from_spec() -> bool {
        true
    }

    open spec fn try_from_spec(value: ValueUnion<'value>) -> core::result::Result<Self, Error> {
        match value {
            ValueUnion::F64(held) => Ok(held),
            _ => Err(
                Error::ValueCannotBeAccessedAsRequestedType {
                    value_type: value@.data_type(),
                    requested_type: DataType::F64,
                },
            ),
        }
    }
}

impl<'value> From<&'value String> for ValueUnion<'value> {
    fn from(value: &'value String) -> (res: Self) {
        ValueUnion::String(value)
    }
}

impl<'value> FromSpecImpl<&'value String> for ValueUnion<'value> {
    open spec fn obeys_from_spec() -> bool {
        true
    }

    open spec fn from_spec(value: &'value String) -> Self {
        ValueUnion::String(value)
    }
}

impl<'value> TryFrom<ValueUnion<'value>> for &'value String {
    type Error = Error;

    fn try_from(value: ValueUnion<'value>) -> (res: core::result::Result<Self, Error>) {
        match value {
            ValueUnion::String(held) => Ok(held),
            _ => Err(
                Error::ValueCannotBeAccessedAsRequestedType {
                    value_type: value.data_type(),
                    requested_type: DataType::String,
                },
            ),
        }
    }
}

impl<'value> TryFromSpecImpl<ValueUnion<'value>> for &'value String {
    open spec fn obeys_try_from_spec() -> bool {
        true
    }

    open spec fn try_from_spec(value: ValueUnion<'value>) -> core::result::Result<Self, Error> {
        match value {
            ValueUnion::String(held) => Ok(held),
            _ => Err(
                Error::ValueCannotBeAccessedAsRequestedType {
                    value_type: value@.data_type(),
                    requested_type: DataType::String,
                },
            ),
        }
    }
}

impl<'value> From<&'value [u8]> for ValueUnion<'value> {
    fn from(value: &'value [u8]) -> (res: Self) {
        ValueUnion::Bytestring(value)
    }
}

impl<'value> FromSpecImpl<&'value [u8]> for ValueUnion<'value> {
    open spec fn obeys_from_spec() -> bool {
        true
    }

    open spec fn from_spec(value: &'value [u8]) -> Self {
        ValueUnion::Bytestring(value)
    }
}

impl<'value> TryFrom<ValueUnion<'value>> for &'value [u8] {
    type Error = Error;

    fn try_from(value: ValueUnion<'value>) -> (res: core::result::Result<Self, Error>) {
        match value {
            ValueUnion::Bytestring(held) => Ok(held),
            _ => Err(
                Error::ValueCannotBeAccessedAsRequestedType {
                    value_type: value.data_type(),
                    requested_type: DataType::Bytestring,
                },
            ),
        }
    }
}

impl<'value> TryFromSpecImpl<ValueUnion<'value>> for &'value [u8] {
    open spec fn obeys_try_from_spec() -> bool {
        true
    }

    open spec fn try_from_spec(value: ValueUnion<'value>) -> core::result::Result<Self, Error> {
        match value {
            ValueUnion::Bytestring(held) => Ok(held),
            _ => Err(
                Error::ValueCannotBeAccessedAsRequestedType {
                    value_type: value@.data_type(),
                    requested_type: DataType::Bytestring,
                },
            ),
        }
    }
}

impl<'value> From<&'value Date> for ValueUnion<'value> {
    fn from(value: &'value Date) -> (res: Self) {
        ValueUnion::Date(value)
    }
}

impl<'value> FromSpecImpl<&'value Date> for ValueUnion<'value> {
    open spec fn obeys_from_spec() -> bool {
        true
    }

    open spec fn from_spec(value: &'value Date) -> Self {
        ValueUnion::Date(value)
    }
}

impl<'value> TryFrom<ValueUnion<'value>> for &'value Date {
    type Error = Error;

    fn try_from(value: ValueUnion<'value>) -> (res: core::result::Result<Self, Error>) {
        match value {
            ValueUnion::Date(held) => Ok(held),
            _ => Err(
                Error::ValueCannotBeAccessedAsRequestedType {
                    value_type: value.data_type(),
                    requested_type: DataType::Date,
                },
            ),
        }
    }
}

impl<'value> TryFromSpecImpl<ValueUnion<'value>> for &'value Date {
    open spec fn obeys_try_from_spec() -> bool {
        true
    }

    open spec fn try_from_spec(value: ValueUnion<'value>) -> core::result::Result<Self, Error> {
        match value {
            ValueUnion::Date(held) => Ok(held),
            _ => Err(
                Error::ValueCannotBeAccessedAsRequestedType {
                    value_type: value@.data_type(),
                    requested_type: DataType::Date,
                },
            ),
        }
    }
}

impl<'value> From<&'value DateTime> for ValueUnion<'value> {
    fn from(value: &'value DateTime) -> (res: Self) {
        ValueUnion::DateTime(value)
    }
}

impl<'value> FromSpecImpl<&'value DateTime> for ValueUnion<'value> {
    open spec fn obeys_from_spec() -> bool {
        true
    }

    open spec fn from_spec(value: &'value DateTime) -> Self {
        ValueUnion::DateTime(value)
    }
}

impl<'value> TryFrom<ValueUnion<'value>> for &'value DateTime {
    type Error = Error;

    fn try_from(value: ValueUnion<'value>) -> (res: core::result::Result<Self, Error>) {
        match value {
            ValueUnion::DateTime(held) => Ok(held),
            _ => Err(
                Error::ValueCannotBeAccessedAsRequestedType {
                    value_type: value.data_type(),
                    requested_type: DataType::DateTime,
                },
            ),
        }
    }
}

impl<'value> TryFromSpecImpl<ValueUnion<'value>> for &'value DateTime {
    open spec fn obeys_try_from_spec() -> bool {
        true
    }

    open spec fn try_from_spec(value: ValueUnion<'value>) -> core::result::Result<Self, Error> {
        match value {
            ValueUnion::DateTime(held) => Ok(held),
            _ => Err(
                Error::ValueCannotBeAccessedAsRequestedType {
                    value_type: value@.data_type(),
                    requested_type: DataType::DateTime,
                },
            ),
        }
    }
}

/// What building a value from `held` gives.
pub open spec fn built<'value, T>(held: T) -> ValueUnion<'value> where ValueUnion<'value>: From<T> {
    <ValueUnion<'value> as FromSpec<T>>::from_spec(held)
}

/// What narrowing `value` to the type `T` gives.
pub open spec fn narrowed<'value, T: TryFrom<ValueUnion<'value>, Error = Error>>(
    value: ValueUnion<'value>,
) -> core::result::Result<T, Error> {
    <T as TryFromSpec<ValueUnion<'value>>>::try_from_spec(value)
}

/// The failure of narrowing `value` to a type of kind `requested`.
pub open spec fn mismatch(value: ValueUnion, requested: DataType) -> Error {
    Error::ValueCannotBeAccessedAsRequestedType {
        value_type: value@.data_type(),
        requested_type: requested,
    }
}

/// Every value is what `from` builds from the payload it holds, and is of
/// the kind that goes with that payload's type.
pub proof fn constructed_value_has_its_kind<'value>(value: ValueUnion<'value>)
    ensures
        match value {
            ValueUnion::Bool(held) => value == built::<bool>(held)
                && value@.data_type() == DataType::Bool,
            ValueUnion::U8(held) => value == built::<u8>(held)
                && value@.data_type() == DataType::U8,
            ValueUnion::U16(held) => value == built::<u16>(held)
                && value@.data_type() == DataType::U16,
            ValueUnion::U32(held) => value == built::<u32>(held)
                && value@.data_type() == DataType::U32,
            ValueUnion::U64(held) => value == built::<u64>(held)
                && value@.data_type() == DataType::U64,
            ValueUnion::I8(held) => value == built::<i8>(held)
                && value@.data_type() == DataType::I8,
            ValueUnion::I16(held) => value == built::<i16>(held)
                && value@.data_type() == DataType::I16,
            ValueUnion::I32(held) => value == built::<i32>(held)
                && value@.data_type() == DataType::I32,
            ValueUnion::I64(held) => value == built::<i64>(held)
                && value@.data_type() == DataType::I64,
            ValueUnion::F32(held) => value == built::<F32Bits>(held)
                && value@.data_type() == DataType::F32,
            ValueUnion::F64(held) => value == built::<F64Bits>(held)
                && value@.data_type() == DataType::F64,
            ValueUnion::String(held) => value == built::<&'value String>(held)
                && value@.data_type() == DataType::String,
            ValueUnion::Bytestring(held) => value == built::<&'value [u8]>(held)
                && value@.data_type() == DataType::Bytestring,
            ValueUnion::Date(held) => value == built::<&'value Date>(held)
                && value@.data_type() == DataType::Date,
            ValueUnion::DateTime(held) => value == built::<&'value DateTime>(held)
                && value@.data_type() == DataType::DateTime,
        },
{
}

/// Narrowing a value to the type of the payload it holds gives that payload
/// back, unchanged.
pub proof fn narrowing_returns_what_was_put_in<'value>(value: ValueUnion<'value>)
    ensures
        match value {
            ValueUnion::Bool(held) => narrowed::<bool>(value)
                == Ok::<bool, Error>(held),
            ValueUnion::U8(held) => narrowed::<u8>(value)
                == Ok::<u8, Error>(held),
            ValueUnion::U16(held) => narrowed::<u16>(value)
                == Ok::<u16, Error>(held),
            ValueUnion::U32(held) => narrowed::<u32>(value)
                == Ok::<u32, Error>(held),
            ValueUnion::U64(held) => narrowed::<u64>(value)
                == Ok::<u64, Error>(held),
            ValueUnion::I8(held) => narrowed::<i8>(value)
                == Ok::<i8, Error>(held),
            ValueUnion::I16(held) => narrowed::<i16>(value)
                == Ok::<i16, Error>(held),
            ValueUnion::I32(held) => narrowed::<i32>(value)
                == Ok::<i32, Error>(held),
            ValueUnion::I64(held) => narrowed::<i64>(value)
                == Ok::<i64, Error>(held),
            ValueUnion::F32(held) => narrowed::<F32Bits>(value)
                == Ok::<F32Bits, Error>(held),
            ValueUnion::F64(held) => narrowed::<F64Bits>(value)
                == Ok::<F64Bits, Error>(held),
            ValueUnion::String(held) => narrowed::<&'value String>(value)
                == Ok::<&'value String, Error>(held),
            ValueUnion::Bytestring(held) => narrowed::<&'value [u8]>(value)
                == Ok::<&'value [u8], Error>(held),
            ValueUnion::Date(held) => narrowed::<&'value Date>(value)
                == Ok::<&'value Date, Error>(held),
            ValueUnion::DateTime(held) => narrowed::<&'value DateTime>(value)
                == Ok::<&'value DateTime, Error>(held),
        },
{
}

/// Narrowing a value to any type but its own fails, and the failure names
/// the kind the value has and the kind that was asked for.
pub proof fn narrowing_to_another_type_fails<'value>(value: ValueUnion<'value>)
    ensures
        value@.data_type() != DataType::Bool ==> narrowed::<bool>(value)
            == Err::<bool, Error>(mismatch(value, DataType::Bool)),
        value@.data_type() != DataType::U8 ==> narrowed::<u8>(value)
            == Err::<u8, Error>(mismatch(value, DataType::U8)),
        value@.data_type() != DataType::U16 ==> narrowed::<u16>(value)
            == Err::<u16, Error>(mismatch(value, DataType::U16)),
        value@.data_type() != DataType::U32 ==> narrowed::<u32>(value)
            == Err::<u32, Error>(mismatch(value, DataType::U32)),
        value@.data_type() != DataType::U64 ==> narrowed::<u64>(value)
            == Err::<u64, Error>(mismatch(value, DataType::U64)),
        value@.data_type() != DataType::I8 ==> narrowed::<i8>(value)
            == Err::<i8, Error>(mismatch(value, DataType::I8)),
        value@.data_type() != DataType::I16 ==> narrowed::<i16>(value)
            == Err::<i16, Error>(mismatch(value, DataType::I16)),
        value@.data_type() != DataType::I32 ==> narrowed::<i32>(value)
            == Err::<i32, Error>(mismatch(value, DataType::I32)),
        value@.data_type() != DataType::I64 ==> narrowed::<i64>(value)
            == Err::<i64, Error>(mismatch(value, DataType::I64)),
        value@.data_type() != DataType::F32 ==> narrowed::<F32Bits>(value)
            == Err::<F32Bits, Error>(mismatch(value, DataType::F32)),
        value@.data_type() != DataType::F64 ==> narrowed::<F64Bits>(value)
            == Err::<F64Bits, Error>(mismatch(value, DataType::F64)),
        value@.data_type() != DataType::String ==> narrowed::<&'value String>(value)
            == Err::<&'value String, Error>(mismatch(value, DataType::String)),
        value@.data_type() != DataType::Bytestring ==> narrowed::<&'value [u8]>(value)
            == Err::<&'value [u8], Error>(mismatch(value, DataType::Bytestring)),
        value@.data_type() != DataType::Date ==> narrowed::<&'value Date>(value)
            == Err::<&'value Date, Error>(mismatch(value, DataType::Date)),
        value@.data_type() != DataType::DateTime ==> narrowed::<&'value DateTime>(value)
            == Err::<&'value DateTime, Error>(mismatch(value, DataType::DateTime)),
{
}

} // verus!
