use crate::query_execution::QueryResultType;
use vstd::prelude::*;

verus! {

/// What executing a query produced.
#[derive(Debug)]
pub enum QueryResult<RowIterator> {
    NoResult,
    ChangeCount { count: usize },
    Iterator { row_iterator: RowIterator },
}

impl<RowIterator> QueryResult<RowIterator> {
    /// The result type that this outcome belongs to.
    pub open spec fn spec_result_type(&self) -> QueryResultType {
        match self {
            QueryResult::NoResult => QueryResultType::NoResult,
            QueryResult::ChangeCount { .. } => QueryResultType::ChangeCount,
            QueryResult::Iterator { .. } => QueryResultType::Iterator,
        }
    }

    #[verifier::when_used_as_spec(spec_result_type)]
    pub fn result_type(&self) -> (res: QueryResultType)
        ensures
            res == self.spec_result_type(),
    {
        match self {
            QueryResult::NoResult => QueryResultType::NoResult,
            QueryResult::ChangeCount { .. } => QueryResultType::ChangeCount,
            QueryResult::Iterator { .. } => QueryResultType::Iterator,
        }
    }
}

} // verus!
