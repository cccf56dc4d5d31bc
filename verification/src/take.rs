use vstd::prelude::*;

verus! {

/// A value that can be taken out exactly once. After it has been taken, any
/// further read is a logic error which the contracts rule out.
#[derive(Debug)]
pub struct Take<T>(Option<T>);

impl<T> View for Take<T> {
    type V = Option<T>;

    closed spec fn view(&self) -> Option<T> {
        self.0
    }
}

impl<T> Take<T> {
    /// Holds `item`.
    pub fn new(item: T) -> (res: Self)
        ensures
            res@ == Some(item),
    {
        Take(Some(item))
    }

    /// Hands out the held value, if any, and leaves the holder empty.
    pub fn take(&mut self) -> (res: Option<T>)
        ensures
            res == old(self)@,
            final(self)@ == None::<T>,
    {
        let mut out = None;
        std::mem::swap(&mut out, &mut self.0);
        out
    }

    /// Stores `item`, replacing any held value, and returns a mutable reference to it.
    pub fn insert(&mut self, item: T) -> (res: &mut T)
        ensures
            *res == item,
            final(self)@ == Some(*final(res)),
    {
        self.0 = Some(item);
        match &mut self.0 {
            Some(t) => t,
            None => vstd::pervasive::unreached(),
        }
    }

    /// Whether the value is still held.
    pub fn is_held(&self) -> (res: bool)
        ensures
            res == self@ is Some,
    {
        self.0.is_some()
    }

    /// Reads the held value.
    pub fn get(&self) -> (res: &T)
        requires
            self@ is Some,
        ensures
            *res == self@->0,
    {
        match &self.0 {
            Some(t) => t,
            None => vstd::pervasive::unreached(),
        }
    }

    /// Mutable access to the held value.
    pub fn get_mut(&mut self) -> (res: &mut T)
        requires
            old(self)@ is Some,
        ensures
            *res == old(self)@->0,
            final(self)@ == Some(*final(res)),
    {
        match &mut self.0 {
            Some(t) => t,
            None => vstd::pervasive::unreached(),
        }
    }
}

} // verus!
