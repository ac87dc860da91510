use lessons::ownership::{duplicate_copy, BorrowTracker, Handle};

#[test]
fn move_invalidates_the_source() {
    let mut a = Handle::new(b"hello".to_vec());
    let b = a.transfer();
    assert!(a.read().is_none());
    assert_eq!(b.read().map(|v| v.clone()), Some(b"hello".to_vec()));
}

#[test]
fn moved_from_handle_refuses_every_access() {
    let mut a = Handle::new(b"hello".to_vec());
    let _b = a.transfer();
    assert!(a.read().is_none());
    assert!(a.duplicate().is_none());
    assert!(a.borrowed_len().is_none());
    assert!(!a.append(b"!"));
    assert!(a.into_text().is_none());
}

#[test]
fn duplicate_gives_two_usable_values() {
    let a = Handle::new(b"hello".to_vec());
    let b = a.duplicate().unwrap();
    assert_eq!(a.read().map(|v| v.clone()), Some(b"hello".to_vec()));
    assert_eq!(b.read().map(|v| v.clone()), Some(b"hello".to_vec()));
}

#[test]
fn copyable_data_duplicates_by_assignment() {
    let (x, y) = duplicate_copy(5);
    assert_eq!(x, 5);
    assert_eq!(y, 5);
}

#[test]
fn consuming_a_handle_releases_its_text() {
    let a = Handle::new(b"hello".to_vec());
    assert_eq!(a.into_text(), Some(b"hello".to_vec()));
}

#[test]
fn immutable_borrow_leaves_the_value_usable() {
    let a = Handle::new(b"Test".to_vec());
    assert_eq!(a.borrowed_len(), Some(4));
    assert_eq!(a.read().map(|v| v.clone()), Some(b"Test".to_vec()));
}

#[test]
fn mutable_borrow_appends_in_place() {
    let mut a = Handle::new(b"Hello".to_vec());
    assert!(a.append(b" World"));
    assert_eq!(a.read().map(|v| v.clone()), Some(b"Hello World".to_vec()));
}

#[test]
fn exclusive_borrow_excludes_every_other_borrow() {
    let mut t = BorrowTracker::new();

    assert!(t.acquire_shared());
    assert!(t.acquire_shared());
    assert!(!t.acquire_exclusive());

    t.release_shared();
    assert!(!t.acquire_exclusive());
    t.release_shared();

    assert!(t.acquire_exclusive());
    assert!(!t.acquire_exclusive());
    assert!(!t.acquire_shared());

    t.release_exclusive();
    assert!(t.acquire_shared());
}
