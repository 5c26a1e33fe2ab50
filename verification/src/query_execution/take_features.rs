use crate::domain::ValueUnion;
use crate::errors::Error;
use crate::errors::Result;
use crate::query_execution::is_identifier;
use crate::query_execution::IdentifyFeature;
use vstd::prelude::*;

verus! {

/// A result row that gives up named values.
pub trait TakeFeatures {
    type Identifier: IdentifyFeature;

    /// Whether the row can answer for the feature that `identifier` names.
    /// A backend that does not say leaves it open.
    open spec fn offers(&self, identifier: &Self::Identifier) -> bool {
        arbitrary()
    }

    /// Whether the row can answer for the feature that `identifier` names.
    fn has_feature(&self, identifier: &Self::Identifier) -> (res: bool)
        ensures
            res == self.offers(identifier),
    ;

    /// The value stored under `identifier`, or `None` where the stored value
    /// is NULL.
    ///
    /// A name outside the identifier grammar is refused before the row is
    /// read. A name that follows the grammar and that the row cannot answer
    /// for is a failure too, of another kind: never a value, and never the
    /// `None` that stands for NULL.
    fn take_feature(&self, identifier: &Self::Identifier) -> (res: Result<Option<ValueUnion<'_>>>)
        ensures
            !is_identifier(identifier.feature_name()) ==> {
                &&& res matches Err(Error::InvalidFeatureName { feature_name })
                &&& feature_name@ == identifier.feature_name()
            },
            is_identifier(identifier.feature_name()) && !self.offers(identifier) ==> res is Err
                && !(res matches Err(Error::InvalidFeatureName { .. })),
    ;
}

} // verus!
