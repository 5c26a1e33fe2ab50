use crate::query_execution::TakeFeatures;
use vstd::prelude::*;

verus! {

/// A lazy, forward-only sequence of result rows.
pub trait IterateRows {
    type Row: TakeFeatures;

    /// Advances to the next row; `None` once the rows are used up.
    fn next_row(&mut self) -> (res: Option<Self::Row>);
}

} // verus!
