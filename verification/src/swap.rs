use vstd::prelude::*;

verus! {

/// A cell whose value can be read as a clone and replaced as a whole.
/// Every change goes through `&mut self`, so a value shared between threads needs
/// exclusive access, such as a lock around it; the type itself is not atomic.
pub struct MySwap<T> {
    ptr: T,
}

impl<T> MySwap<T> {
    /// The value held.
    pub closed spec fn value(self) -> T {
        self.ptr
    }

    /// Holds `element`.
    pub fn new(element: T) -> (r: MySwap<T>)
        ensures
            r.value() == element,
    {
        MySwap { ptr: element }
    }

    /// Returns a clone of the value held.
    pub fn get(&self) -> (r: T)
        where T: Clone
        ensures
            cloned(self.value(), r),
    {
        self.ptr.clone()
    }

    /// Replaces the value held by `element`; the previous value is dropped.
    pub fn set(&mut self, element: T)
        ensures
            final(self).value() == element,
    {
        self.ptr = element;
    }
}

} // verus!
