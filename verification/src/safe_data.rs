//! Application state shared with request handlers by value.
use vstd::prelude::*;

verus! {

/// A piece of application state that request handlers receive as a clone of the
/// registered value.
#[derive(Clone)]
pub struct SafeData<T: Clone + Send + Sync + 'static>(T);

impl<T: Clone + Send + Sync + 'static> View for SafeData<T> {
    type V = T;

    closed spec fn view(&self) -> T {
        self.0
    }
}

impl<T: Clone + Send + Sync + 'static> SafeData<T> {
    /// Wraps `state`.
    pub fn new(state: T) -> (res: Self)
        ensures
            res@ == state,
    {
        SafeData(state)
    }

    /// The wrapped value.
    pub fn into_inner(self) -> (res: T)
        ensures
            res == self@,
    {
        self.0
    }

    /// A reference to the wrapped value.
    pub fn get(&self) -> (res: &T)
        ensures
            *res == self@,
    {
        &self.0
    }
}

} // verus!
