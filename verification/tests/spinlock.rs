use sync_toolkit::spinlock::{Guard, SpinLock};
use sync_toolkit::spinlock::push_under_lock;

#[test]
fn lock_hands_out_the_protected_value() {
    let mut lock = SpinLock::new(5u64);
    assert!(!lock.is_locked());
    let guard = lock.lock();
    assert!(lock.is_locked());
    assert_eq!(*guard.get(), 5);
    lock.release(guard);
    assert!(!lock.is_locked());
}

#[test]
fn writes_under_the_guard_reach_the_next_acquirer() {
    let mut lock = SpinLock::new(5u64);
    let mut guard = lock.lock();
    guard.set(6);
    lock.release(guard);
    let guard = lock.lock();
    assert_eq!(*guard.get(), 6);
    lock.release(guard);
}

#[test]
fn guard_owns_the_value_while_the_lock_is_held() {
    // The protected value is reachable only through the guard: while one is
    // outstanding the lock is flagged, and the value comes back to the lock
    // only on release.
    let mut lock = SpinLock::new(String::from("shared"));
    let guard: Guard<String> = lock.lock();
    assert!(lock.is_locked());
    assert_eq!(guard.get(), "shared");
    lock.release(guard);
    assert!(!lock.is_locked());
    let guard = lock.lock();
    assert_eq!(guard.get(), "shared");
    lock.release(guard);
}

#[test]
fn critical_sections_lose_no_push() {
    // Three critical sections, serialized as 1, 2, 2: the final contents are
    // exactly the pushed elements, in the serialization order.
    let mut lock = SpinLock::new(Vec::<u64>::new());
    push_under_lock(&mut lock, 1);
    push_under_lock(&mut lock, 2);
    push_under_lock(&mut lock, 2);
    let guard = lock.lock();
    assert_eq!(guard.get().as_slice(), &[1, 2, 2]);
    lock.release(guard);
}

#[test]
fn empty_vector_under_lock_stays_empty_until_pushed() {
    let mut lock = SpinLock::new(Vec::<u64>::new());
    let guard = lock.lock();
    assert!(guard.get().is_empty());
    lock.release(guard);
    push_under_lock(&mut lock, 9);
    let guard = lock.lock();
    assert_eq!(guard.get().as_slice(), &[9]);
    lock.release(guard);
}
