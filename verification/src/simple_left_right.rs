use vstd::prelude::*;

verus! {

/// Left-right slots in their simple form, where a write replaces the hidden copy
/// whole and then makes it the visible one, so the copy that was visible before the
/// write still holds the previous version.
/// Every change goes through `&mut self`, so a value shared between threads needs
/// exclusive access, such as a lock around it; the type itself is not atomic.
pub struct SimpleLeftRight<T> {
    active_index: usize,
    data: [T; 2],
}

impl<T> SimpleLeftRight<T> {
    #[verifier::type_invariant]
    spec fn wf(self) -> bool {
        self.active_index < 2
    }

    /// Index (0 or 1) of the copy that readers see.
    pub closed spec fn active(self) -> int {
        self.active_index as int
    }

    /// The copy at index `i`.
    pub closed spec fn slot(self, i: int) -> T {
        self.data@[i]
    }

    /// The value that a read returns a clone of.
    pub open spec fn value(self) -> T {
        self.slot(self.active())
    }

    /// The copy that readers do not see.
    pub open spec fn standby(self) -> T {
        self.slot(1 - self.active())
    }
}

impl<T: Clone> SimpleLeftRight<T> {
    /// Both copies start from `init`; the visible copy is a clone of it.
    pub fn new(init: T) -> (r: SimpleLeftRight<T>)
        ensures
            r.active() == 0,
            cloned(init, r.value()),
            r.standby() == init,
    {
        let first = init.clone();
        SimpleLeftRight { active_index: 0, data: [first, init] }
    }

    /// Returns a clone of the visible copy.
    pub fn read(&self) -> (r: T)
        ensures
            cloned(self.value(), r),
    {
        proof {
            use_type_invariant(self);
        }
        let active = self.active_index;
        self.data[active].clone()
    }

    /// Stores `value` in the hidden copy and then makes that copy the visible one.
    /// The copy that was visible keeps the previous value.
    pub fn write(&mut self, value: T)
        ensures
            final(self).active() == 1 - old(self).active(),
            final(self).value() == value,
            final(self).standby() == old(self).value(),
    {
        proof {
            use_type_invariant(&*self);
        }
        let active = self.active_index;
        let inactive = 1 - active;
        self.data[inactive] = value;
        self.active_index = inactive;
    }
}

/// Two writes in a row bring the active index back to where it was; the second
/// written value is the visible copy and the first one the hidden copy.
pub proof fn lemma_simple_write_then_write<T>(
    before: SimpleLeftRight<T>,
    middle: SimpleLeftRight<T>,
    after: SimpleLeftRight<T>,
    first: T,
    second: T,
)
    requires
        middle.active() == 1 - before.active(),
        middle.value() == first,
        middle.standby() == before.value(),
        after.active() == 1 - middle.active(),
        after.value() == second,
        after.standby() == middle.value(),
    ensures
        after.active() == before.active(),
        after.standby() == first,
        after.value() == second,
{
}

} // verus!
