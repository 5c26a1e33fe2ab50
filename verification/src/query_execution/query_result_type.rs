use vstd::prelude::*;

verus! {

/// The shape of outcome a query was built to produce. It is chosen when the
/// query is made and never changes afterwards.
#[derive(Debug, Clone, Copy, PartialEq, Eq, Structural)]
pub enum QueryResultType {
    /// Nothing comes back.
    NoResult,
    /// The number of rows the statement changed comes back.
    ChangeCount,
    /// A sequence of rows comes back.
    Iterator,
}

} // verus!
