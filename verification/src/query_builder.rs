//! What a query builder needs of the values it is handed.

mod identify_query_parameter;
mod provide_query_parameters;

pub use identify_query_parameter::IdentifyQueryParameter;
pub use provide_query_parameters::ProvideQueryParameters;
