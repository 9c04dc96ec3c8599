use graphql_sse::shutdown::{self, Registration};

#[test]
fn fire_wakes_each_waiter_once() {
    let mut s = shutdown::new();
    assert_eq!(s.register(), Registration::Waiting(0));
    assert_eq!(s.register(), Registration::Waiting(1));
    assert_eq!(s.register(), Registration::Waiting(2));
    assert_eq!(s.waiting(), 3);
    assert_eq!(s.fire(), vec![0, 1, 2]);
    assert!(s.is_fired());
    assert_eq!(s.waiting(), 0);
}

#[test]
fn late_waiter_sees_fired() {
    let mut s = shutdown::new();
    s.fire();
    assert_eq!(s.register(), Registration::AlreadyFired);
    assert_eq!(s.waiting(), 0);
}

#[test]
fn released_waiter_is_not_woken() {
    let mut s = shutdown::new();
    let a = s.register();
    let b = s.register();
    assert_eq!(a, Registration::Waiting(0));
    assert!(s.release(0));
    assert!(!s.release(0));
    assert_eq!(s.waiting(), 1);
    assert_eq!(b, Registration::Waiting(1));
    assert_eq!(s.fire(), vec![1]);
}

#[test]
fn fire_with_nobody_waiting() {
    let mut s = shutdown::new();
    let _ = s.register();
    assert!(s.release(0));
    assert_eq!(s.fire(), Vec::<u64>::new());
    assert_eq!(s.fire(), Vec::<u64>::new());
    assert!(s.is_fired());
    assert!(s.can_register());
}
