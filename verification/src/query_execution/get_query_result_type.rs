use crate::query_execution::QueryResultType;
use vstd::prelude::*;

verus! {

/// A query that knows which shape of outcome it was built to produce.
pub trait GetQueryResultType {
    /// The result type fixed when the query was made. A query that does not
    /// say has a result type of which nothing is known.
    open spec fn spec_query_result_type(&self) -> QueryResultType {
        arbitrary()
    }

    fn query_result_type(&self) -> (res: QueryResultType)
        ensures
            res == self.spec_query_result_type(),
    ;
}

} // verus!
