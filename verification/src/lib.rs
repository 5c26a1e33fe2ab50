//! A database-engine-agnostic layer that marshals typed values into query
//! parameters and back out of result rows, and dispatches execution by the
//! shape of result a query was declared with.

pub mod database_providers;
pub mod domain;
pub mod errors;
pub mod query_builder;
pub mod query_execution;

pub use errors::Error;
pub use errors::Result;
