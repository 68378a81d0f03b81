use cef_client::capability::{self, Capability};
use cef_client::ref_count::{RefCount, RefCounted};

#[test]
fn a_new_count_has_one_owner() {
    let count = RefCount::new();
    assert_eq!(count.get(), 1);
    assert!(count.has_one_ref());
    assert!(count.has_at_least_one_ref());
}

#[test]
fn count_is_start_plus_added_minus_released() {
    let mut count = RefCount::new();
    for _ in 0..5 {
        count.add_ref();
    }
    for _ in 0..3 {
        assert!(!count.release());
    }
    assert_eq!(count.get(), 1 + 5 - 3);
    assert!(!count.has_one_ref());
    assert!(count.has_at_least_one_ref());
}

#[test]
fn paired_steps_leave_the_count_where_it_was() {
    let mut count = RefCount::new();
    for _ in 0..100 {
        count.add_ref();
        assert!(!count.release());
    }
    assert_eq!(count.get(), 1);
    assert!(count.has_one_ref());
}

#[test]
fn only_the_last_release_frees() {
    let mut count = RefCount::new();
    count.add_ref();
    count.add_ref();
    assert!(!count.release());
    assert!(!count.release());
    assert!(count.release());
    assert_eq!(count.get(), 0);
    assert!(!count.has_one_ref());
    assert!(!count.has_at_least_one_ref());
}

#[test]
fn a_handler_counts_its_owners() {
    let mut handler = capability::allocate(Capability::Display);
    assert_eq!(handler.capability(), Capability::Display);
    assert_eq!(handler.owners(), 1);
    handler.inc_ref();
    handler.add_ref();
    assert_eq!(handler.owners(), 3);
    assert!(!handler.has_one_ref());
    assert!(!handler.release());
    assert!(!handler.release());
    assert!(handler.has_one_ref());
    assert!(handler.release());
    assert!(!handler.has_at_least_one_ref());
    assert_eq!(handler.capability(), Capability::Display);
}
