//! A shared-ownership box keyed by an explicit owner count.
//!
//! The runtime primitive this models is a heap block holding a payload and
//! an atomic count of outstanding handles: cloning a handle increments the
//! count (aborting the process if it is found above half the representable
//! range, to rule out wraparound), dropping one decrements it with release
//! ordering, and whichever drop observes the count fall from one performs an
//! acquire fence and frees the block.  Here the block is explicit and the
//! count a plain field, so the ownership protocol itself is stated and
//! checked: the payload is surrendered by exactly one release — the last.

use vstd::prelude::*;

verus! {

/// The clone guard: a clone that finds the owner count above this bound
/// treats it as runaway cloning and aborts the process instead of risking
/// wraparound.  [`Arc::retain`] rules such counts out by precondition.
pub const MAX_OWNERS: usize = usize::MAX / 2;

/// A reference-counted box: one payload of type `T` together with the
/// number of outstanding owner handles.
///
/// Invariant: the payload is present exactly while at least one owner is
/// outstanding; the release that drops the count to zero takes it out.
pub struct Arc<T> {
    ref_count: usize,
    value: Option<T>,
}

impl<T> Arc<T> {
    /// The number of outstanding owner handles.
    pub closed spec fn count(self) -> nat {
        self.ref_count as nat
    }

    /// The shared payload, while any owner is outstanding.
    pub closed spec fn stored(self) -> Option<T> {
        self.value
    }

    /// The ownership invariant: the payload is present exactly while the
    /// owner count is positive.
    pub open spec fn wf(self) -> bool {
        self.count() >= 1 <==> self.stored() is Some
    }

    /// Allocates a box over `value` with a single owner.
    pub fn new(value: T) -> (arc: Self)
        ensures
            arc.wf(),
            arc.count() == 1,
            arc.stored() == Some(value),
    {
        Arc { ref_count: 1, value: Some(value) }
    }

    /// Registers one more owner, as cloning a handle does.  The payload is
    /// untouched: the count itself is the only shared fact a clone changes.
    ///
    /// The runtime primitive aborts the process when a clone observes the
    /// count above [`MAX_OWNERS`]; the precondition rules that out, so a
    /// verified caller never reaches the abort.
    pub fn retain(&mut self)
        requires
            old(self).wf(),
            1 <= old(self).count() <= MAX_OWNERS,
        ensures
            final(self).wf(),
            final(self).count() == old(self).count() + 1,
            final(self).stored() == old(self).stored(),
    {
        self.ref_count = self.ref_count + 1;
    }

    /// Lets one owner go, as dropping a handle does.  The release that
    /// observes the count at one — the last release — takes the payload
    /// out and returns it for destruction; every earlier release returns
    /// nothing and leaves the payload in place.
    pub fn release(&mut self) -> (payload: Option<T>)
        requires
            old(self).wf(),
            old(self).count() >= 1,
        ensures
            final(self).wf(),
            final(self).count() == old(self).count() - 1,
            old(self).count() == 1 ==> payload == old(self).stored() && final(self).stored() is None,
            old(self).count() > 1 ==> payload is None && final(self).stored() == old(self).stored(),
    {
        self.ref_count = self.ref_count - 1;
        if self.ref_count == 0 {
            self.value.take()
        } else {
            None
        }
    }

    /// Reads the shared payload.  Owners get read access only: mutating
    /// through a handle takes synchronization outside this contract.
    pub fn data(&self) -> (value: &T)
        requires
            self.wf(),
            self.count() >= 1,
        ensures
            self.stored() == Some(*value),
    {
        match &self.value {
            Some(v) => v,
            None => vstd::pervasive::unreached(),
        }
    }
}

/// The owner count over a run that constructs the box (count one), clones
/// it `clones` times, then performs `releases` releases.
pub open spec fn count_after(clones: nat, releases: nat) -> int {
    1 + clones - releases
}

/// Whether the `k`-th release of such a run observes the count at one and
/// so frees the payload, by the contract of [`Arc::release`].
pub open spec fn frees_payload(clones: nat, k: nat) -> bool {
    count_after(clones, (k - 1) as nat) == 1
}

/// Reference-count correctness: in a run of one construction, `clones`
/// clones and `clones + 1` releases, exactly the last release frees the
/// payload — it runs once, and never before every owner is gone.
pub proof fn lemma_payload_freed_exactly_once(clones: nat)
    ensures
        forall|k: nat| 1 <= k <= clones + 1 ==> (#[trigger] frees_payload(clones, k) <==> k == clones + 1),
{
}

} // verus!
