use crate::query_builder::IdentifyQueryParameter;
use vstd::prelude::*;

verus! {

/// A type that can provide query parameters, usually a struct that is bound
/// to a query to provide its parameter values.
pub trait ProvideQueryParameters {
    /// Whether the value provides a parameter under `identifier`. A type
    /// that does not say leaves it open.
    open spec fn provides<Identifier: IdentifyQueryParameter>(
        &self,
        identifier: &Identifier,
    ) -> bool {
        arbitrary()
    }

    /// Checks whether the value provides a parameter with the given
    /// identifier.
    fn contains_key(&self, identifier: &impl IdentifyQueryParameter) -> (res: bool)
        ensures
            res == self.provides(identifier),
    ;

    /// The value of the parameter with the given identifier, where the value
    /// provides one.
    fn get<ParameterValue>(&self, identifier: &impl IdentifyQueryParameter) -> (res: Option<
        &ParameterValue,
    >)
        ensures
            res is Some ==> self.provides(identifier),
    ;

    /// A mutable reference to the value of the parameter with the given
    /// identifier, where the value provides one.
    fn get_mut<ParameterValue>(&mut self, identifier: &impl IdentifyQueryParameter) -> (res:
        Option<&mut ParameterValue>)
        ensures
            res is Some ==> old(self).provides(identifier),
    ;
}

} // verus!
