use crate::registry::{serves, MissingMock, MockRegistry};
use vstd::prelude::*;

verus! {

/// A zero-argument operation tagged with the location identifier `ID` of
/// the call site that makes it.
///
/// The identifier need not be unique: call sites that share it (and their
/// output type) are served by the same mock value.
pub struct Testable<const ID: usize, Func> {
    pub func: Func,
}

impl<const ID: usize, Func> Testable<ID, Func> {
    /// The location identifier of this call site.
    pub open spec fn location_id(&self) -> usize {
        ID
    }

    /// Resolves the call in production: runs the wrapped operation and
    /// returns its output, whatever it is.
    pub fn call_dependency<Out>(self) -> (r: Out)
        where
            Func: FnOnce() -> Out,
        requires
            self.func.requires(()),
        ensures
            self.func.ensures((), r),
    {
        (self.func)()
    }

    /// Resolves the call against `mocks`: returns a copy of the value
    /// installed under this call site's identifier, or the error naming the
    /// identifier. The wrapped operation is never run.
    pub fn call_mocked<Out: Clone>(self, mocks: &MockRegistry<Out>) -> (r: Result<Out, MissingMock>)
        where
            Func: FnOnce() -> Out,
        ensures
            serves(mocks@, self.location_id(), r),
    {
        mocks.lookup(ID)
    }
}

} // verus!
