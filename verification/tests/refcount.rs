use sync_toolkit::refcount::Arc;

#[test]
fn sole_owner_release_frees_at_once() {
    let mut arc = Arc::new(42u64);
    assert_eq!(arc.release(), Some(42));
}

#[test]
fn clones_then_releases_free_exactly_once() {
    // Three clones and four releases: only the last release surrenders the
    // payload, and never before every owner is gone.
    let mut arc = Arc::new(7u64);
    arc.retain();
    arc.retain();
    arc.retain();
    assert_eq!(arc.release(), None);
    assert_eq!(arc.release(), None);
    assert_eq!(arc.release(), None);
    assert_eq!(arc.release(), Some(7));
}

#[test]
fn payload_stays_readable_while_any_owner_remains() {
    let mut arc = Arc::new(String::from("shared payload"));
    assert_eq!(arc.data(), "shared payload");
    arc.retain();
    assert_eq!(arc.release(), None);
    assert_eq!(arc.data(), "shared payload");
    assert_eq!(arc.release(), Some(String::from("shared payload")));
}

#[test]
fn many_owners_count_down_to_one_free() {
    let mut arc = Arc::new(1u64);
    for _ in 0..100 {
        arc.retain();
    }
    let mut freed = 0;
    for _ in 0..101 {
        if arc.release().is_some() {
            freed += 1;
        }
    }
    assert_eq!(freed, 1);
}
