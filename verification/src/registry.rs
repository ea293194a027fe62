//! The session registry: a shared mapping from integer handle to session,
//! with a monotonically increasing handle allocator.
//!
//! A host holds one registry behind a reader/writer lock and keeps each
//! lock acquisition to the duration of a single map operation; every
//! backend call happens outside the lock, on a session reference cloned
//! out of the map. The registry itself is the sequential structure below.

use std::collections::BTreeMap;
use vstd::prelude::*;

verus! {

broadcast use vstd::std_specs::btree::group_btree_axioms, vstd::laws_cmp::group_laws_cmp;

/// The registry of live PTY sessions. `S` is the per-session record: in a
/// running host it is a shared pointer to the session's backend resources,
/// each behind its own exclusive guard.
pub struct Registry<S> {
    next_handle: u32,
    sessions: BTreeMap<u32, S>,
}

impl<S> Registry<S> {
    /// The handle-to-session mapping.
    pub closed spec fn sessions(&self) -> Map<u32, S> {
        self.sessions@
    }

    /// The handle the allocator will hand out next.
    pub closed spec fn next(&self) -> u32 {
        self.next_handle
    }

    /// Every registered handle came from the allocator, so it lies below the
    /// allocator's next value.
    pub open spec fn wf(&self) -> bool {
        forall|h: u32| #[trigger] self.sessions().dom().contains(h) ==> h < self.next()
    }

    /// An empty registry whose allocator starts at zero.
    pub fn new() -> (r: Self)
        ensures
            r.wf(),
            r.sessions() == Map::<u32, S>::empty(),
            r.next() == 0,
    {
        Registry { next_handle: 0, sessions: BTreeMap::new() }
    }

    /// Hands out the next handle; never fails. The counter width bounds how
    /// many sessions one process can ever create; behaviour past that point
    /// is left unspecified upstream, so exhaustion is excluded here.
    pub fn allocate_handle(&mut self) -> (h: u32)
        requires
            old(self).next() < u32::MAX,
        ensures
            h == old(self).next(),
            final(self).next() == h + 1,
            final(self).sessions() == old(self).sessions(),
            old(self).wf() ==> final(self).wf() && !old(self).sessions().dom().contains(h),
    {
        let h = self.next_handle;
        self.next_handle = h + 1;
        proof {
            if old(self).wf() {
                assert forall|h2: u32| #[trigger] self.sessions().dom().contains(h2) implies h2
                    < self.next() by {
                    assert(old(self).sessions().dom().contains(h2));
                }
            }
        }
        h
    }

    /// Registers a session under a handle from `allocate_handle`. Sessions
    /// already registered keep their handles and are not disturbed.
    pub fn insert(&mut self, handle: u32, session: S)
        requires
            old(self).wf(),
            !old(self).sessions().dom().contains(handle),
            handle < old(self).next(),
        ensures
            final(self).wf(),
            final(self).sessions() == old(self).sessions().insert(handle, session),
            final(self).next() == old(self).next(),
    {
        self.sessions.insert(handle, session);
    }

    /// Shared-read lookup: the session registered under the handle, or
    /// nothing exactly when the handle was never registered (or removed).
    pub fn lookup(&self, handle: u32) -> (r: Option<&S>)
        ensures
            match r {
                Some(s) => self.sessions().dom().contains(handle) && *s == self.sessions()[handle],
                None => !self.sessions().dom().contains(handle),
            },
    {
        self.sessions.get(&handle)
    }

    /// Whether a session is registered under the handle.
    pub fn contains(&self, handle: u32) -> (r: bool)
        ensures
            r == self.sessions().dom().contains(handle),
    {
        self.sessions.contains_key(&handle)
    }

    /// How many handles the allocator has handed out so far — equally, the
    /// value it will hand out next. A caller that cannot reason about the
    /// allocator tests this against the counter width before registering.
    pub fn handles_allocated(&self) -> (n: u32)
        ensures
            n == self.next(),
    {
        self.next_handle
    }

    /// How many sessions are registered.
    pub fn len(&self) -> (n: usize)
        ensures
            n == self.sessions().len(),
    {
        self.sessions.len()
    }

    /// Removes the session registered under the handle and returns it; the
    /// lifecycle extension point, not exercised by the pull-mode operations
    /// (`kill` does not evict). Other sessions are not disturbed.
    pub fn remove(&mut self, handle: u32) -> (r: Option<S>)
        ensures
            final(self).sessions() == old(self).sessions().remove(handle),
            final(self).next() == old(self).next(),
            old(self).wf() ==> final(self).wf(),
            match r {
                Some(s) => old(self).sessions().dom().contains(handle) && s == old(
                    self,
                ).sessions()[handle],
                None => !old(self).sessions().dom().contains(handle),
            },
    {
        self.sessions.remove(&handle)
    }

    /// The registry step of `spawn`: allocates a fresh handle — one never
    /// registered before — and registers the session under it.
    pub fn register(&mut self, session: S) -> (h: u32)
        requires
            old(self).wf(),
            old(self).next() < u32::MAX,
        ensures
            final(self).wf(),
            h == old(self).next(),
            !old(self).sessions().dom().contains(h),
            final(self).sessions() == old(self).sessions().insert(h, session),
            final(self).next() == h + 1,
    {
        let h = self.allocate_handle();
        self.insert(h, session);
        h
    }
}

/// One successful `spawn`, as `register` states it on the registry: `pre`
/// hands out its next handle as `h` and gains exactly one session under it.
pub open spec fn registration<S>(pre: Registry<S>, h: u32, post: Registry<S>) -> bool {
    &&& pre.next() < u32::MAX
    &&& h == pre.next()
    &&& post.next() == h + 1
    &&& exists|s: S| post.sessions() == pre.sessions().insert(h, s)
}

/// A run of successful spawns: `regs[i]` hands out handle `hs[i]` and
/// becomes `regs[i + 1]`.
pub open spec fn registration_run<S>(regs: Seq<Registry<S>>, hs: Seq<u32>) -> bool {
    &&& regs.len() == hs.len() + 1
    &&& forall|i: int|
        0 <= i < hs.len() ==> #[trigger] registration(regs[i], hs[i], regs[i + 1])
}

proof fn lemma_handles_shift<S>(regs: Seq<Registry<S>>, hs: Seq<u32>, i: int, j: int)
    requires
        registration_run(regs, hs),
        0 <= i <= j < hs.len(),
    ensures
        hs[j] == hs[i] + (j - i),
    decreases j - i,
{
    if i < j {
        lemma_handles_shift(regs, hs, i, j - 1);
        let jp = j - 1;
        assert(registration(regs[jp], hs[jp], regs[jp + 1]));
        assert(registration(regs[j], hs[j], regs[j + 1]));
    }
}

/// Handle uniqueness: every run of successful spawns hands out pairwise
/// distinct handles (the allocator cannot wrap within one run).
pub proof fn lemma_handle_uniqueness<S>(regs: Seq<Registry<S>>, hs: Seq<u32>)
    requires
        registration_run(regs, hs),
    ensures
        forall|i: int, j: int| 0 <= i < j < hs.len() ==> hs[i] != hs[j],
{
    assert forall|i: int, j: int| 0 <= i < j < hs.len() implies hs[i] != hs[j] by {
        lemma_handles_shift(regs, hs, i, j);
    }
}

/// Lookup correctness: a handle that no spawn of a run from an empty
/// registry handed out is absent afterwards, so every pull-mode operation
/// rejects it (see `Registry::resolve`, whose result is then the
/// handle-not-found error).
pub proof fn lemma_unknown_handle_absent<S>(regs: Seq<Registry<S>>, hs: Seq<u32>, h: u32)
    requires
        registration_run(regs, hs),
        regs[0].sessions() == Map::<u32, S>::empty(),
        forall|i: int| 0 <= i < hs.len() ==> hs[i] != h,
    ensures
        !regs.last().sessions().dom().contains(h),
{
    lemma_absent_after_prefix(regs, hs, h, hs.len() as int);
}

proof fn lemma_absent_after_prefix<S>(regs: Seq<Registry<S>>, hs: Seq<u32>, h: u32, k: int)
    requires
        registration_run(regs, hs),
        regs[0].sessions() == Map::<u32, S>::empty(),
        forall|i: int| 0 <= i < hs.len() ==> hs[i] != h,
        0 <= k < regs.len(),
    ensures
        !regs[k].sessions().dom().contains(h),
    decreases k,
{
    if k > 0 {
        lemma_absent_after_prefix(regs, hs, h, k - 1);
        let kp = k - 1;
        assert(registration(regs[kp], hs[kp], regs[kp + 1]));
    }
}

} // verus!
