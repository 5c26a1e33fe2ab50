use std::fmt::Debug;
use std::hash::Hash;
use vstd::prelude::*;
use vstd::string::*;

verus! {

/// A character that may open an identifier: an ASCII letter or an underscore.
pub open spec fn is_identifier_start(c: char) -> bool {
    ('a' <= c && c <= 'z') || ('A' <= c && c <= 'Z') || c == '_'
}

/// A character that may stand anywhere in an identifier: an ASCII letter, an
/// ASCII digit or an underscore.
pub open spec fn is_identifier_part(c: char) -> bool {
    is_identifier_start(c) || ('0' <= c && c <= '9')
}

/// The identifier grammar: one opening character, then any number of further
/// identifier characters, and nothing else.
pub open spec fn is_identifier(name: Seq<char>) -> bool {
    &&& name.len() > 0
    &&& is_identifier_start(name[0])
    &&& forall|i: int| 0 <= i < name.len() ==> is_identifier_part(#[trigger] name[i])
}

fn is_start_byte(byte: u8) -> (res: bool)
    ensures
        res == is_identifier_start(byte as char),
{
    (97 <= byte && byte <= 122) || (65 <= byte && byte <= 90) || byte == 95
}

fn is_part_byte(byte: u8) -> (res: bool)
    ensures
        res == is_identifier_part(byte as char),
{
    is_start_byte(byte) || (48 <= byte && byte <= 57)
}

/// Whether `name` follows the identifier grammar.
pub fn is_valid_identifier(name: &str) -> (res: bool)
    ensures
        res == is_identifier(name@),
{
    broadcast use is_ascii_spec_bytes;

    if !name.is_ascii() {
        return false;
    }
    let bytes = name.as_bytes();
    let length = bytes.len();
    assert(forall|i: int| 0 <= i < name@.len() ==> (#[trigger] bytes@[i]) as char == name@[i]);
    if length == 0 || !is_start_byte(bytes[0]) {
        return false;
    }
    let mut index: usize = 1;
    while index < length
        invariant
            1 <= index <= length,
            length == bytes@.len(),
            bytes@.len() == name@.len(),
            forall|i: int| 0 <= i < name@.len() ==> (#[trigger] bytes@[i]) as char == name@[i],
            forall|i: int| 0 <= i < index ==> is_identifier_part(#[trigger] name@[i]),
        decreases length - index,
    {
        if !is_part_byte(bytes[index]) {
            return false;
        }
        index += 1;
    }
    true
}

/// A type whose values name a feature: a bind parameter of a query or a
/// column of a row.
pub trait IdentifyFeature: Debug + Hash + PartialEq {
    /// The name as a backend reads it. A type that does not say has a name
    /// of which nothing is known.
    open spec fn feature_name(&self) -> Seq<char> {
        arbitrary()
    }
}

impl IdentifyFeature for String {
    open spec fn feature_name(&self) -> Seq<char> {
        self@
    }
}

} // verus!
