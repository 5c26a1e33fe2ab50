use vstd::prelude::*;

verus! {

/// Every kind of value that can travel into a query or out of a row.
#[derive(Debug, Clone, Copy, PartialEq, Eq, Structural)]
pub enum DataType {
    Bool,
    U8,
    U16,
    U32,
    U64,
    I8,
    I16,
    I32,
    I64,
    F32,
    F64,
    String,
    Bytestring,
    Date,
    DateTime,
}

impl DataType {
    /// The fixed-width integer kinds.
    pub open spec fn spec_is_integral(&self) -> bool {
        self is U8 || self is U16 || self is U32 || self is U64 || self is I8 || self is I16
            || self is I32 || self is I64
    }

    /// Signedness of an integer kind; `None` for every other kind.
    pub open spec fn spec_is_signed(&self) -> Option<bool> {
        if self is I8 || self is I16 || self is I32 || self is I64 {
            Some(true)
        } else if self is U8 || self is U16 || self is U32 || self is U64 {
            Some(false)
        } else {
            None
        }
    }

    /// Width in bits of an integer kind; `None` for every other kind.
    pub open spec fn spec_bit_width(&self) -> Option<u32> {
        if self is U8 || self is I8 {
            Some(8u32)
        } else if self is U16 || self is I16 {
            Some(16u32)
        } else if self is U32 || self is I32 {
            Some(32u32)
        } else if self is U64 || self is I64 {
            Some(64u32)
        } else {
            None
        }
    }

    /// The variable-length kinds.
    pub open spec fn spec_is_sequential(&self) -> bool {
        self is String || self is Bytestring
    }

    #[verifier::when_used_as_spec(spec_is_integral)]
    pub fn is_integral(&self) -> (res: bool)
        ensures
            res == self.spec_is_integral(),
    {
        match self {
            DataType::U8
            | DataType::U16
            | DataType::U32
            | DataType::U64
            | DataType::I8
            | DataType::I16
            | DataType::I32
            | DataType::I64 => true,
            _ => false,
        }
    }

    #[verifier::when_used_as_spec(spec_is_signed)]
    pub fn is_signed(&self) -> (res: Option<bool>)
        ensures
            res == self.spec_is_signed(),
    {
        match self {
            DataType::U8 => Some(false),
            DataType::U16 => Some(false),
            DataType::U32 => Some(false),
            DataType::U64 => Some(false),
            DataType::I8 => Some(true),
            DataType::I16 => Some(true),
            DataType::I32 => Some(true),
            DataType::I64 => Some(true),
            _ => None,
        }
    }

    #[verifier::when_used_as_spec(spec_bit_width)]
    pub fn bit_width(&self) -> (res: Option<u32>)
        ensures
            res == self.spec_bit_width(),
    {
        match self {
            DataType::U8 => Some(8),
            DataType::U16 => Some(16),
            DataType::U32 => Some(32),
            DataType::U64 => Some(64),
            DataType::I8 => Some(8),
            DataType::I16 => Some(16),
            DataType::I32 => Some(32),
            DataType::I64 => Some(64),
            _ => None,
        }
    }

    #[verifier::when_used_as_spec(spec_is_sequential)]
    pub fn is_sequential(&self) -> (res: bool)
        ensures
            res == self.spec_is_sequential(),
    {
        match self {
            DataType::String | DataType::Bytestring => true,
            _ => false,
        }
    }
}

/// The four classifications agree with one another: a kind is integral
/// exactly when it has a bit width and exactly when it has a signedness, a
/// bit width is 8, 16, 32 or 64, and no sequential kind is integral.
pub proof fn classification_is_consistent(kind: DataType)
    ensures
        kind.spec_is_integral() <==> kind.spec_bit_width() is Some,
        kind.spec_is_integral() <==> kind.spec_is_signed() is Some,
        kind.spec_bit_width() matches Some(width) ==> width == 8 || width == 16 || width == 32
            || width == 64,
        kind.spec_is_sequential() ==> !kind.spec_is_integral(),
{
}

/// The classification of every kind, row by row: whether it is integral, its
/// signedness, its bit width, and whether it is sequential.
pub proof fn classification_table(kind: DataType)
    ensures
        match kind {
            DataType::Bool => classified(kind, false, None, None, false),
            DataType::U8 => classified(kind, true, Some(false), Some(8), false),
            DataType::U16 => classified(kind, true, Some(false), Some(16), false),
            DataType::U32 => classified(kind, true, Some(false), Some(32), false),
            DataType::U64 => classified(kind, true, Some(false), Some(64), false),
            DataType::I8 => classified(kind, true, Some(true), Some(8), false),
            DataType::I16 => classified(kind, true, Some(true), Some(16), false),
            DataType::I32 => classified(kind, true, Some(true), Some(32), false),
            DataType::I64 => classified(kind, true, Some(true), Some(64), false),
            DataType::F32 => classified(kind, false, None, None, false),
            DataType::F64 => classified(kind, false, None, None, false),
            DataType::String => classified(kind, false, None, None, true),
            DataType::Bytestring => classified(kind, false, None, None, true),
            DataType::Date => classified(kind, false, None, None, false),
            DataType::DateTime => classified(kind, false, None, None, false),
        },
{
}

/// Whether `kind` is classified as the four given answers say.
pub open spec fn classified(
    kind: DataType,
    integral: bool,
    signed: Option<bool>,
    width: Option<u32>,
    sequential: bool,
) -> bool {
    &&& kind.spec_is_integral() == integral
    &&& kind.spec_is_signed() == signed
    &&& kind.spec_bit_width() == width
    &&& kind.spec_is_sequential() == sequential
}

} // verus!
