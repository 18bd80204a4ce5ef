//! A lock built around a single boolean exclusion flag.
//!
//! The runtime primitive this models acquires the flag with an
//! acquire-ordered atomic exchange in a spin loop and clears it with a
//! release-ordered exchange, so that everything written under the lock is
//! visible to the next acquirer.  Here the flag and the protected value are
//! plain fields and exclusivity is carried by `&mut` access, which lets the
//! exclusion protocol itself be stated and checked: acquiring hands out a
//! [`Guard`] that owns the protected value, and while that guard is live the
//! lock itself holds nothing, so no path reaches the value except through
//! the guard.

use vstd::prelude::*;

verus! {

/// A lock protecting a single value of type `T` behind an exclusion flag.
///
/// Invariant: the protected value sits inside the lock exactly while the
/// lock is unlocked; an acquisition moves it into the returned [`Guard`]
/// and a release moves it back.
pub struct SpinLock<T> {
    locked: bool,
    value: Option<T>,
}

/// An exclusive-access grant to the value protected by a [`SpinLock`].
///
/// A guard is created only by [`SpinLock::lock`] and given back only by
/// [`SpinLock::release`]; between the two it is the sole owner of the
/// protected value.
pub struct Guard<T> {
    value: T,
}

impl<T> SpinLock<T> {
    /// Whether the exclusion flag is set, i.e. a guard is outstanding.
    pub closed spec fn locked(self) -> bool {
        self.locked
    }

    /// The value currently held inside the lock, if any.
    pub closed spec fn stored(self) -> Option<T> {
        self.value
    }

    /// The exclusion invariant: the lock holds the protected value
    /// exactly while nobody holds the flag.
    pub open spec fn wf(self) -> bool {
        self.locked() <==> self.stored() is None
    }

    /// Creates an unlocked lock protecting `value`.
    pub fn new(value: T) -> (lock: Self)
        ensures
            lock.wf(),
            !lock.locked(),
            lock.stored() == Some(value),
    {
        SpinLock { locked: false, value: Some(value) }
    }

    /// Acquires the lock: sets the flag and moves the protected value into
    /// the returned guard.
    ///
    /// The runtime primitive spins until its atomic exchange observes the
    /// flag clear; under exclusive access the flag must already be clear,
    /// which the precondition states, so the acquisition succeeds at once.
    pub fn lock(&mut self) -> (guard: Guard<T>)
        requires
            old(self).wf(),
            !old(self).locked(),
        ensures
            final(self).wf(),
            final(self).locked(),
            old(self).stored() == Some(guard.value()),
    {
        self.locked = true;
        let taken = self.value.take();
        match taken {
            Some(v) => Guard { value: v },
            None => vstd::pervasive::unreached(),
        }
    }

    /// Reads the exclusion flag: whether a guard is outstanding.
    pub fn is_locked(&self) -> (locked: bool)
        ensures
            locked == self.locked(),
    {
        self.locked
    }

    /// Releases the lock: clears the flag and moves the guarded value back
    /// into the lock, where the next acquirer will find it.
    pub fn release(&mut self, guard: Guard<T>)
        requires
            old(self).wf(),
            old(self).locked(),
        ensures
            final(self).wf(),
            !final(self).locked(),
            final(self).stored() == Some(guard.value()),
    {
        self.locked = false;
        self.value = Some(guard.value);
    }
}

impl<T> Guard<T> {
    /// The value this guard grants exclusive access to.
    pub closed spec fn value(self) -> T {
        self.value
    }

    /// Reads the guarded value.
    pub fn get(&self) -> (v: &T)
        ensures
            *v == self.value(),
    {
        &self.value
    }

    /// Overwrites the guarded value.
    pub fn set(&mut self, value: T)
        ensures
            final(self).value() == value,
    {
        self.value = value;
    }
}

/// While a guard is outstanding, the lock itself holds no value: the only
/// way to reach the protected value is through that guard.
pub proof fn lemma_guard_is_exclusive<T>(lock: SpinLock<T>)
    requires
        lock.wf(),
        lock.locked(),
    ensures
        lock.stored() is None,
{
}

/// The elements of a vector possibly stored in a lock; the empty sequence
/// while the value is checked out.
pub open spec fn stored_elems<T>(stored: Option<Vec<T>>) -> Seq<T> {
    match stored {
        Some(v) => v@,
        None => Seq::empty(),
    }
}

/// Mutual exclusion, stated over whole histories.  Each critical section
/// appends one element, so a run of contending threads appends its elements
/// in some serialization `order` — a rearrangement of everything `pushed`.
/// Whatever that serialization was, the final contents are exactly the
/// initial contents together with every pushed element: none lost, none
/// duplicated, only the relative order left open.
pub proof fn lemma_critical_sections_lose_nothing<T>(init: Seq<T>, pushed: Seq<T>, order: Seq<T>)
    requires
        order.to_multiset() == pushed.to_multiset(),
    ensures
        (init + order).to_multiset() == init.to_multiset().add(pushed.to_multiset()),
{
    vstd::seq_lib::lemma_multiset_commutative(init, order);
}

/// One critical section: acquire the lock, append `item` to the protected
/// vector, release.  The lock ends unlocked, holding its old contents with
/// `item` appended — nothing lost, nothing duplicated.
pub fn push_under_lock<T>(lock: &mut SpinLock<Vec<T>>, item: T)
    requires
        old(lock).wf(),
        !old(lock).locked(),
    ensures
        final(lock).wf(),
        !final(lock).locked(),
        stored_elems(final(lock).stored()) == stored_elems(old(lock).stored()).push(item),
{
    let guard = lock.lock();
    let Guard { value: mut v } = guard;
    v.push(item);
    lock.release(Guard { value: v });
}

} // verus!
