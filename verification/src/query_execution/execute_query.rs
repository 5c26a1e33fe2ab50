use crate::errors::Result;
use crate::query_execution::GetQueryResultType;
use crate::query_execution::InjectFeatures;
use crate::query_execution::IterateRows;
use crate::query_execution::QueryResult;
use crate::query_execution::QueryResultType;
use crate::query_execution::TakeFeatures;
use vstd::prelude::*;

verus! {

/// A connection that runs prepared queries. Which of the three paths a query
/// takes is decided by its result type alone. `'query` is how long the query
/// stays borrowed by the rows of an execution.
pub trait ExecuteQuery<'query> {
    type Query: InjectFeatures + GetQueryResultType;

    type Row: TakeFeatures;

    type RowIterator: IterateRows<Row = Self::Row>;

    /// Whether running `before` without results can leave it as `after` and
    /// report `outcome`. A backend says here what that path does; one that
    /// does not say leaves it open.
    open spec fn ran_without_results(
        &self,
        before: &Self::Query,
        after: &Self::Query,
        outcome: Result<()>,
    ) -> bool {
        arbitrary()
    }

    /// Whether running `before` for its change count can leave it as `after`
    /// and report `outcome`. A backend says here what that path does; one
    /// that does not say leaves it open.
    open spec fn ran_with_change_count(
        &self,
        before: &Self::Query,
        after: &Self::Query,
        outcome: Result<usize>,
    ) -> bool {
        arbitrary()
    }

    /// Whether running `before` for its rows can report `outcome` and leave
    /// the query as `after` once the rows are let go. A backend says here
    /// what that path does; one that does not say leaves it open.
    open spec fn ran_with_iterator(
        &self,
        before: &Self::Query,
        after: &Self::Query,
        outcome: Result<Self::RowIterator>,
    ) -> bool {
        arbitrary()
    }

    /// Advances the statement once and reports nothing.
    fn execute_without_results(&self, query: &mut Self::Query) -> (res: Result<()>)
        ensures
            final(query).spec_query_result_type() == old(query).spec_query_result_type(),
            self.ran_without_results(old(query), final(query), res),
    ;

    /// Advances the statement once and reports how many rows the connection
    /// says it changed.
    fn execute_with_change_count(&self, query: &mut Self::Query) -> (res: Result<usize>)
        ensures
            final(query).spec_query_result_type() == old(query).spec_query_result_type(),
            self.ran_with_change_count(old(query), final(query), res),
    ;

    /// Hands back the rows of the statement without advancing it.
    fn execute_with_iterator(&self, query: &'query mut Self::Query) -> (res: Result<
        Self::RowIterator,
    >)
        ensures
            final(query).spec_query_result_type() == old(query).spec_query_result_type(),
            self.ran_with_iterator(old(query), final(query), res),
    ;

    /// Runs `query` on the path its result type selects, and on no other.
    /// What that path reports, this reports: nothing, the count, or the rows,
    /// each in the outcome of its shape, and a failure as it is.
    fn execute(&self, query: &'query mut Self::Query) -> (res: Result<
        QueryResult<Self::RowIterator>,
    >)
        ensures
            final(query).spec_query_result_type() == old(query).spec_query_result_type(),
            res matches Ok(outcome) ==> outcome.spec_result_type() == old(
                query
            ).spec_query_result_type(),
            match old(query).spec_query_result_type() {
                QueryResultType::NoResult => match res {
                    Ok(QueryResult::NoResult) => self.ran_without_results(
                        old(query),
                        final(query),
                        Ok(()),
                    ),
                    Ok(_) => false,
                    Err(error) => self.ran_without_results(old(query), final(query), Err(error)),
                },
                QueryResultType::ChangeCount => match res {
                    Ok(QueryResult::ChangeCount { count }) => self.ran_with_change_count(
                        old(query),
                        final(query),
                        Ok(count),
                    ),
                    Ok(_) => false,
                    Err(error) => self.ran_with_change_count(
                        old(query),
                        final(query),
                        Err(error),
                    ),
                },
                QueryResultType::Iterator => match res {
                    Ok(QueryResult::Iterator { row_iterator }) => self.ran_with_iterator(
                        old(query),
                        final(query),
                        Ok(row_iterator),
                    ),
                    Ok(_) => false,
                    Err(error) => self.ran_with_iterator(old(query), final(query), Err(error)),
                },
            },
    {
        match query.query_result_type() {
            QueryResultType::NoResult => {
                match self.execute_without_results(query) {
                    Ok(nothing) => {
                        assert(nothing == ());
                        Ok(QueryResult::NoResult)
                    },
                    Err(error) => Err(error),
                }
            },
            QueryResultType::ChangeCount => {
                match self.execute_with_change_count(query) {
                    Ok(count) => Ok(QueryResult::ChangeCount { count }),
                    Err(error) => Err(error),
                }
            },
            QueryResultType::Iterator => {
                match self.execute_with_iterator(query) {
                    Ok(row_iterator) => Ok(QueryResult::Iterator { row_iterator }),
                    Err(error) => Err(error),
                }
            },
        }
    }
}

} // verus!
