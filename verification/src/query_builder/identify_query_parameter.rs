use std::fmt::Debug;
use std::hash::Hash;
use vstd::prelude::*;

verus! {

/// A type that can be used to identify a query parameter, both for the query
/// itself and for any value that can be bound to the query.
///
/// A query that passes its parameters by index can use `usize`. Any other
/// type that can be compared, hashed and printed will do as well, once it
/// implements this trait.
pub trait IdentifyQueryParameter: Debug + Hash + PartialEq {

}

impl IdentifyQueryParameter for usize {

}

} // verus!
