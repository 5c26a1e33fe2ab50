use crate::domain::DataType;
use vstd::prelude::*;

verus! {

/// What can go wrong while marshalling a value or talking to the engine.
#[derive(Debug, PartialEq, Eq)]
pub enum Error {
    /// A value was asked for as a type other than the one it holds.
    ValueCannotBeAccessedAsRequestedType { value_type: DataType, requested_type: DataType },
    /// The engine reported a failure; its code and message are kept as given.
    SqliteError { code: Option<isize>, message: Option<String> },
    /// A feature name does not follow the identifier grammar.
    InvalidFeatureName { feature_name: String },
}

pub type Result<Value> = std::result::Result<Value, Error>;

impl Error {
    /// A copy of this error, field by field.
    pub fn duplicate(&self) -> (res: Error)
        ensures
            res == *self,
    {
        match self {
            Error::ValueCannotBeAccessedAsRequestedType { value_type, requested_type } => {
                Error::ValueCannotBeAccessedAsRequestedType {
                    value_type: *value_type,
                    requested_type: *requested_type,
                }
            },
            Error::SqliteError { code, message } => {
                let message_copy = match message {
                    Some(text) => Some(text.clone()),
                    None => None,
                };
                Error::SqliteError { code: *code, message: message_copy }
            },
            Error::InvalidFeatureName { feature_name } => {
                Error::InvalidFeatureName { feature_name: feature_name.clone() }
            },
        }
    }
}

} // verus!
