//! The contracts a backend fulfils: naming features, injecting them into a
//! query, taking them out of a row, and executing a query by its result type.

mod execute_query;
mod get_query_result_type;
mod identify_feature;
mod inject_features;
mod iterate_rows;
mod query_result;
mod query_result_type;
mod take_features;

pub use execute_query::ExecuteQuery;
pub use get_query_result_type::GetQueryResultType;
pub use identify_feature::is_identifier;
pub use identify_feature::is_identifier_part;
pub use identify_feature::is_identifier_start;
pub use identify_feature::is_valid_identifier;
pub use identify_feature::IdentifyFeature;
pub use inject_features::InjectFeatures;
pub use iterate_rows::IterateRows;
pub use query_result::QueryResult;
pub use query_result_type::QueryResultType;
pub use take_features::TakeFeatures;
