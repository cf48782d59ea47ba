use vstd::prelude::*;

verus! {

/// Two copies of a value and the index of the copy that readers see. A write
/// fills the copy that readers do not see and then makes it the visible one, so
/// the copy that was visible before the write still holds the previous version.
/// Every change goes through `&mut self`, so a value shared between threads needs
/// exclusive access, such as a lock around it; the type itself is not atomic.
pub struct LeftRight<T> {
    active_index: usize,
    data: [T; 2],
}

impl<T> LeftRight<T> {
    #[verifier::type_invariant]
    spec fn wf(self) -> bool {
        self.active_index < 2
    }

    /// Index (0 or 1) of the copy that readers see.
    pub closed spec fn active(self) -> int {
        self.active_index as int
    }

    /// The copy at index `i`.
    pub closed spec fn slot(self, i: int) -> T {
        self.data@[i]
    }

    /// The value that a read returns a clone of.
    pub open spec fn value(self) -> T {
        self.slot(self.active())
    }

    /// The copy that readers do not see.
    pub open spec fn standby(self) -> T {
        self.slot(1 - self.active())
    }
}

impl<T: Clone> LeftRight<T> {
    /// Both copies start from `element`; the visible copy is a clone of it.
    pub fn new(element: T) -> (r: LeftRight<T>)
        ensures
            r.active() == 0,
            cloned(element, r.value()),
            r.standby() == element,
    {
        let first = element.clone();
        LeftRight { active_index: 0, data: [first, element] }
    }

    /// Returns a clone of the visible copy.
    pub fn read(&self) -> (r: T)
        ensures
            cloned(self.value(), r),
    {
        proof {
            use_type_invariant(self);
        }
        let active = self.active_index;
        self.data[active].clone()
    }

    /// Stores `element` in the hidden copy and then makes that copy the visible one.
    /// The copy that was visible keeps the previous value.
    pub fn write(&mut self, element: T)
        ensures
            final(self).active() == 1 - old(self).active(),
            final(self).value() == element,
            final(self).standby() == old(self).value(),
    {
        proof {
            use_type_invariant(&*self);
        }
        let active = self.active_index;
        let inactive = 1 - active;
        self.data[inactive] = element;
        self.active_index = inactive;
    }
}

/// Two writes in a row bring the active index back to where it was; the second
/// written value is the visible copy and the first one the hidden copy.
pub proof fn lemma_write_then_write<T>(
    before: LeftRight<T>,
    middle: LeftRight<T>,
    after: LeftRight<T>,
    first: T,
    second: T,
)
    requires
        middle.active() == 1 - before.active(),
        middle.value() == first,
        middle.standby() == before.value(),
        after.active() == 1 - middle.active(),
        after.value() == second,
        after.standby() == middle.value(),
    ensures
        after.active() == before.active(),
        after.standby() == first,
        after.value() == second,
{
}

} // verus!
