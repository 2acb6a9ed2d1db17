use deno_bindgen_cli::registry::InstanceRegistry;

#[test]
fn handles_are_allocated_monotonically_from_one() {
    let mut reg: InstanceRegistry<String> = InstanceRegistry::new();
    let a = reg.create("first".to_string());
    let b = reg.create("second".to_string());
    assert_eq!(a, 1);
    assert_eq!(b, 2);
    assert_eq!(reg.len(), 2);
}

#[test]
fn taking_an_instance_and_restoring_it_keeps_it_live() {
    let mut reg: InstanceRegistry<u64> = InstanceRegistry::new();
    let h = reg.create(10);
    let v = reg.take(&h).unwrap();
    assert_eq!(v, 10);
    assert_eq!(reg.len(), 0);
    reg.restore(h, v + 1);
    assert_eq!(reg.len(), 1);
    assert_eq!(reg.take(&h), Some(11));
}

#[test]
fn unknown_handles_are_reported() {
    let mut reg: InstanceRegistry<u64> = InstanceRegistry::new();
    assert!(!reg.contains(&5));
    assert!(reg.take(&5).is_none());
}

#[test]
fn dispose_removes_only_the_named_instance() {
    let mut reg: InstanceRegistry<u64> = InstanceRegistry::new();
    let a = reg.create(1);
    let b = reg.create(2);
    reg.dispose(&a);
    assert!(!reg.contains(&a));
    assert!(reg.contains(&b));
    assert_eq!(reg.len(), 1);
}

#[test]
fn disposing_an_unknown_handle_changes_nothing() {
    let mut reg: InstanceRegistry<u64> = InstanceRegistry::new();
    let a = reg.create(1);
    reg.dispose(&99);
    assert!(reg.contains(&a));
    assert_eq!(reg.len(), 1);
}
