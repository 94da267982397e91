use anansi_core::ObserverRegistry;

#[test]
fn adding_k_then_removing_one_leaves_k_minus_one() {
    let mut reg: ObserverRegistry<&'static str> = ObserverRegistry::new();
    let a = reg.add("first");
    let b = reg.add("second");
    let c = reg.add("third");
    assert_eq!(reg.len(), 3);
    assert!(reg.remove(b));
    assert_eq!(reg.len(), 2);
    // the remaining observers keep their order and identities
    assert_eq!(*reg.get(0), (a, "first"));
    assert_eq!(*reg.get(1), (c, "third"));
    assert!(!reg.contains(b));
}

#[test]
fn removing_a_never_added_id_returns_false_and_changes_nothing() {
    let mut reg: ObserverRegistry<u32> = ObserverRegistry::new();
    let a = reg.add(7);
    assert!(!reg.remove(a + 1000));
    assert_eq!(reg.len(), 1);
    assert_eq!(*reg.get(0), (a, 7));
}

#[test]
fn identifiers_are_unique_and_never_reused() {
    let mut reg: ObserverRegistry<u32> = ObserverRegistry::new();
    let a = reg.add(1);
    let b = reg.add(2);
    assert_ne!(a, b);
    assert!(reg.remove(a));
    let c = reg.add(3);
    assert_ne!(c, a);
    assert_ne!(c, b);
}

#[test]
fn empty_registry_dispatch_snapshot_is_empty() {
    let reg: ObserverRegistry<u32> = ObserverRegistry::new();
    assert_eq!(reg.len(), 0);
}
