//! The sandbox server's pool of initialized sandboxes: a first-in,
//! first-out queue. A sandbox leaves the pool while a request uses it and
//! is pushed onto the back when it comes back healthy.

use vstd::prelude::*;

verus! {

/// A FIFO of ready sandboxes.
pub struct SandboxPool<T> {
    items: Vec<T>,
}

impl<T> SandboxPool<T> {
    /// The queued sandboxes, front first.
    pub closed spec fn contents(&self) -> Seq<T> {
        self.items@
    }

    /// An empty pool.
    pub fn new() -> (p: Self)
        ensures
            p.contents() =~= Seq::<T>::empty(),
    {
        SandboxPool { items: Vec::new() }
    }

    /// How many sandboxes are ready.
    pub fn len(&self) -> (n: usize)
        ensures
            n == self.contents().len(),
    {
        self.items.len()
    }

    /// Queues a sandbox at the back.
    pub fn push_back(&mut self, t: T)
        ensures
            final(self).contents() =~= old(self).contents().push(t),
    {
        self.items.push(t);
    }

    /// Takes the sandbox that has waited longest, if any.
    pub fn pop_front(&mut self) -> (r: Option<T>)
        ensures
            match r {
                Some(t) => old(self).contents().len() > 0 && t == old(self).contents()[0]
                    && final(self).contents() =~= old(self).contents().drop_first(),
                None => old(self).contents().len() == 0
                    && final(self).contents() =~= old(self).contents(),
            },
    {
        if self.items.len() == 0 {
            None
        } else {
            Some(self.items.remove(0))
        }
    }
}

/// A prewarm request that managed to create a sandbox leaves the pool one
/// sandbox larger.
pub proof fn lemma_prewarm_grows_pool<T>(before: Seq<T>, created: T)
    ensures
        before.push(created).len() == before.len() + 1,
{
}

/// A served request that takes the front sandbox and returns it to the
/// back leaves the pool size unchanged.
pub proof fn lemma_serve_keeps_pool_size<T>(before: Seq<T>)
    requires
        before.len() > 0,
    ensures
        before.drop_first().push(before[0]).len() == before.len(),
{
}

} // verus!
