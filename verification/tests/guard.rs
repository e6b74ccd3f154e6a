use selection_capture::guard::{Coordinator, GuardDomain};

#[test]
fn a_held_domain_is_not_granted_again() {
    let mut guards = Coordinator::new();
    assert!(guards.try_acquire(GuardDomain::CopyPaste, 1));
    assert!(!guards.try_acquire(GuardDomain::CopyPaste, 2));
    assert!(!guards.try_acquire(GuardDomain::CopyPaste, 1));
    assert_eq!(guards.holder(GuardDomain::CopyPaste), Some(1));
}

#[test]
fn domains_are_independent() {
    let mut guards = Coordinator::new();
    assert!(guards.try_acquire(GuardDomain::InputNavigation, 1));
    assert!(guards.try_acquire(GuardDomain::CopyPaste, 1));
    assert!(guards.try_acquire(GuardDomain::SelectAll, 2));
    assert_eq!(guards.holder(GuardDomain::InputNavigation), Some(1));
    assert_eq!(guards.holder(GuardDomain::CopyPaste), Some(1));
    assert_eq!(guards.holder(GuardDomain::SelectAll), Some(2));
    assert!(guards.release(GuardDomain::CopyPaste, 1));
    assert_eq!(guards.holder(GuardDomain::InputNavigation), Some(1));
    assert_eq!(guards.holder(GuardDomain::CopyPaste), None);
}

#[test]
fn only_the_holder_gives_a_domain_back() {
    let mut guards = Coordinator::new();
    assert!(!guards.release(GuardDomain::SelectAll, 1));
    assert!(guards.try_acquire(GuardDomain::SelectAll, 1));
    assert!(!guards.release(GuardDomain::SelectAll, 2));
    assert_eq!(guards.holder(GuardDomain::SelectAll), Some(1));
    assert!(guards.release(GuardDomain::SelectAll, 1));
    assert!(guards.try_acquire(GuardDomain::SelectAll, 2));
    assert_eq!(guards.holder(GuardDomain::SelectAll), Some(2));
}

#[test]
fn a_new_coordinator_holds_nothing() {
    let guards = Coordinator::new();
    assert_eq!(guards.holder(GuardDomain::SelectAll), None);
    assert_eq!(guards.holder(GuardDomain::InputNavigation), None);
    assert_eq!(guards.holder(GuardDomain::CopyPaste), None);
}
