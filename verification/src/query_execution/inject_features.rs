use crate::domain::ValueUnion;
use crate::errors::Error;
use crate::errors::Result;
use crate::query_execution::is_identifier;
use crate::query_execution::IdentifyFeature;
use vstd::prelude::*;

verus! {

/// A prepared query that accepts named values.
pub trait InjectFeatures: Sized {
    type Identifier: IdentifyFeature;

    /// Whether this query can put `value` into a form its engine binds. A
    /// backend that does not say leaves it open.
    open spec fn accepts(&self, value: &ValueUnion) -> bool {
        arbitrary()
    }

    /// Whether this query can put `value` into a form its engine binds.
    fn can_inject(&self, value: &ValueUnion) -> (res: bool)
        ensures
            res == self.accepts(value),
    ;

    /// Binds `value` to the parameter that `identifier` names.
    ///
    /// A name outside the identifier grammar is refused before the engine is
    /// touched, whatever the value. Any other failure is the engine's own.
    fn inject_feature(&mut self, identifier: &Self::Identifier, value: &ValueUnion) -> (res:
        Result<()>)
        requires
            is_identifier(identifier.feature_name()) ==> old(self).accepts(value),
        ensures
            !is_identifier(identifier.feature_name()) ==> {
                &&& res matches Err(Error::InvalidFeatureName { feature_name })
                &&& feature_name@ == identifier.feature_name()
                &&& *final(self) == *old(self)
            },
            is_identifier(identifier.feature_name()) ==> res is Ok || res matches Err(
                Error::SqliteError { .. },
            ),
            forall|other: &ValueUnion| final(self).accepts(other) == old(self).accepts(other),
    ;

    /// Binds `value` as `inject_feature` does, where the query accepts it.
    /// `None`, with the query untouched, says that the name is an identifier
    /// and the query has no form for the value.
    fn try_inject_feature(&mut self, identifier: &Self::Identifier, value: &ValueUnion) -> (res:
        Option<Result<()>>)
        ensures
            res is None <==> is_identifier(identifier.feature_name()) && !old(self).accepts(value),
            res is None ==> *final(self) == *old(self),
            !is_identifier(identifier.feature_name()) ==> {
                &&& res matches Some(Err(Error::InvalidFeatureName { feature_name }))
                &&& feature_name@ == identifier.feature_name()
                &&& *final(self) == *old(self)
            },
            res matches Some(outcome) ==> is_identifier(identifier.feature_name()) ==> outcome is Ok
                || outcome matches Err(Error::SqliteError { .. }),
            forall|other: &ValueUnion| final(self).accepts(other) == old(self).accepts(other),
    ;
}

} // verus!
