//! A layer that wraps a service and hands its requests and responses through
//! unchanged.

use vstd::prelude::*;

verus! {

/// The layer.
#[derive(Clone, Copy, Debug)]
#[must_use]
pub struct JsonError;

/// A service wrapped by the layer.
#[derive(Clone, Copy, Debug)]
pub struct JsonErrorService<S> {
    pub inner: S,
}

impl JsonError {
    /// Wraps `inner`.
    pub fn layer<S>(&self, inner: S) -> (service: JsonErrorService<S>)
        ensures
            service.inner == inner,
    {
        JsonErrorService { inner }
    }
}

impl<S> JsonErrorService<S> {
    /// The wrapped service.
    pub fn get_ref(&self) -> (inner: &S)
        ensures
            *inner == self.inner,
    {
        &self.inner
    }

    /// Takes the wrapping off.
    pub fn into_inner(self) -> (inner: S)
        ensures
            inner == self.inner,
    {
        self.inner
    }
}

} // verus!
