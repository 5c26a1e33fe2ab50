use vstd::prelude::*;
use vstd::string::*;

verus! {

/// A value as the engine stores it: one of its four storage kinds, or NULL.
/// A floating-point number stands here as its IEEE 754 bit pattern.
pub ghost enum Stored {
    Binary(Seq<u8>),
    Float(u64),
    Integer(i64),
    Text(Seq<char>),
    Null,
}

/// The longest text or byte string, in bytes, that the engine takes in one
/// parameter.
pub const MAX_PARAMETER_BYTES: usize = 0x7fff_ffff;

/// The length, in bytes, from which on the engine no longer tells the name
/// of a parameter from a shorter one.
pub const MAX_NAME_BYTES: usize = 0x4000_0000;

/// Whether a bit pattern of a double-precision number is one of those that
/// stand for no number.
pub open spec fn is_not_a_number(bits: u64) -> bool {
    bits & 0x7fff_ffff_ffff_ffff > 0x7ff0_0000_0000_0000
}

impl Stored {
    /// What a parameter holds once this value was bound to it: the value
    /// itself, but for a floating-point pattern that stands for no number,
    /// in place of which the engine keeps NULL.
    pub open spec fn as_bound(self) -> Stored {
        match self {
            Stored::Float(bits) => if is_not_a_number(bits) {
                Stored::Null
            } else {
                self
            },
            _ => self,
        }
    }

    /// Whether the value is short enough to be handed to the engine.
    pub open spec fn fits_parameter(self) -> bool {
        match self {
            Stored::Text(text) => vstd::utf8::encode_utf8(text).len() <= MAX_PARAMETER_BYTES,
            Stored::Binary(bytes) => bytes.len() <= MAX_PARAMETER_BYTES,
            _ => true,
        }
    }
}

/// A value in the form in which it is bound to a parameter.
#[derive(Debug, PartialEq, Eq)]
pub enum BoundValue {
    Integer(i64),
    Text(String),
    Binary(Vec<u8>),
}

impl View for BoundValue {
    type V = Stored;

    open spec fn view(&self) -> Stored {
        match self {
            BoundValue::Integer(number) => Stored::Integer(*number),
            BoundValue::Text(text) => Stored::Text(text@),
            BoundValue::Binary(bytes) => Stored::Binary(bytes@),
        }
    }
}

impl BoundValue {
    /// Whether the value is short enough to be handed to the engine.
    pub fn fits_parameter(&self) -> (res: bool)
        ensures
            res == self@.fits_parameter(),
    {
        match self {
            BoundValue::Integer(_) => true,
            BoundValue::Text(text) => text.as_str().as_bytes().len() <= MAX_PARAMETER_BYTES,
            BoundValue::Binary(bytes) => bytes.len() <= MAX_PARAMETER_BYTES,
        }
    }
}

/// A value as read from a column of a row.
#[derive(Debug, PartialEq, Eq)]
pub enum StoredValue {
    Binary(Vec<u8>),
    /// The IEEE 754 bit pattern of the number.
    Float(u64),
    Integer(i64),
    Text(String),
    Null,
}

impl View for StoredValue {
    type V = Stored;

    open spec fn view(&self) -> Stored {
        match self {
            StoredValue::Binary(bytes) => Stored::Binary(bytes@),
            StoredValue::Float(bits) => Stored::Float(*bits),
            StoredValue::Integer(number) => Stored::Integer(*number),
            StoredValue::Text(text) => Stored::Text(text@),
            StoredValue::Null => Stored::Null,
        }
    }
}

impl DeepView for StoredValue {
    type V = Stored;

    open spec fn deep_view(&self) -> Stored {
        self@
    }
}

} // verus!
