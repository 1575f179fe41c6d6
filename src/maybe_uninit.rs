use vstd::prelude::*;

verus! {

/// Storage that may or may not hold a value yet; it is read only once it
/// has been filled.
#[derive(Copy)]
pub struct MaybeUninit<T: Copy> {
    value: Option<T>,
}

impl<T: Copy> Clone for MaybeUninit<T> {
    fn clone(&self) -> (r: Self)
        ensures
            r == *self,
    {
        *self
    }
}

impl<T: Copy> View for MaybeUninit<T> {
    type V = Option<T>;

    closed spec fn view(&self) -> Option<T> {
        self.value
    }
}

impl<T: Copy> MaybeUninit<T> {
    /// Storage holding nothing.
    pub fn null() -> (r: Self)
        ensures
            r@ is None,
    {
        MaybeUninit { value: None }
    }

    /// Store `value`, replacing whatever was there.
    pub fn set(&mut self, value: T)
        ensures
            final(self)@ == Some(value),
    {
        self.value = Some(value);
    }

    /// The stored value; the storage must have been filled.
    pub fn get(self) -> (r: T)
        requires
            self@ is Some,
        ensures
            self@ == Some(r),
    {
        self.value.unwrap()
    }
}

} // verus!
